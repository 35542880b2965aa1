//! Non-fatal problems reported alongside an otherwise successful parse.
//!
//! No problem aborts a parse: every error is local, and is surfaced as a
//! diagnostic next to the section sequence the parse still produces.

use vstd::prelude::*;

verus! {

/// What kind of problem a diagnostic reports.
#[derive(Debug, Clone, Copy, PartialEq, Eq)]
pub enum DiagnosticKind {
    /// An annotation span that matches no recognized shape, or one left
    /// unterminated at the end of its line.
    MalformedAnnotation,
    /// A fenced scene still open at the end of the input; the partial scene
    /// is emitted all the same.
    UnterminatedFence,
}

/// One problem found while parsing: its kind, the line it was found on
/// (counted from zero within the parsed source), the character offset within
/// that line, and the raw text concerned.
#[derive(Debug, PartialEq, Eq)]
pub struct Diagnostic {
    pub kind: DiagnosticKind,
    pub line: usize,
    pub offset: usize,
    pub snippet: String,
}

/// Model of a [`Diagnostic`].
pub struct DiagModel {
    pub kind: DiagnosticKind,
    pub line: int,
    pub offset: int,
    pub snippet: Seq<char>,
}

impl View for Diagnostic {
    type V = DiagModel;

    open spec fn view(&self) -> DiagModel {
        DiagModel {
            kind: self.kind,
            line: self.line as int,
            offset: self.offset as int,
            snippet: self.snippet@,
        }
    }
}

/// The models of a sequence of diagnostics.
pub open spec fn diags_model(ds: Seq<Diagnostic>) -> Seq<DiagModel> {
    ds.map_values(|d: Diagnostic| d@)
}

/// Mapping to models commutes with appending one diagnostic.
pub proof fn lemma_diags_model_push(ds: Seq<Diagnostic>, d: Diagnostic)
    ensures
        diags_model(ds.push(d)) == diags_model(ds).push(d@),
{
    assert(diags_model(ds.push(d)) =~= diags_model(ds).push(d@));
}

/// A problem local to one line, as the tokenizer reports it: the character
/// offset where the offending span started, and the raw span content.
#[derive(Debug, PartialEq, Eq)]
pub struct LineDiagnostic {
    pub offset: usize,
    pub snippet: String,
}

/// Model of a [`LineDiagnostic`].
pub struct LineDiagModel {
    pub offset: int,
    pub snippet: Seq<char>,
}

impl View for LineDiagnostic {
    type V = LineDiagModel;

    open spec fn view(&self) -> LineDiagModel {
        LineDiagModel { offset: self.offset as int, snippet: self.snippet@ }
    }
}

/// The models of a sequence of line-local diagnostics.
pub open spec fn line_diags_model(ds: Seq<LineDiagnostic>) -> Seq<LineDiagModel> {
    ds.map_values(|d: LineDiagnostic| d@)
}

/// Mapping to models commutes with appending one line-local diagnostic.
pub proof fn lemma_line_diags_model_push(ds: Seq<LineDiagnostic>, d: LineDiagnostic)
    ensures
        line_diags_model(ds.push(d)) == line_diags_model(ds).push(d@),
{
    assert(line_diags_model(ds.push(d)) =~= line_diags_model(ds).push(d@));
}

/// A line-local diagnostic placed at its line within a larger source: every
/// such problem is a malformed annotation.
pub open spec fn lift_diag(d: LineDiagModel, line: int) -> DiagModel {
    DiagModel {
        kind: DiagnosticKind::MalformedAnnotation,
        line: line,
        offset: d.offset,
        snippet: d.snippet,
    }
}

/// A whole line's diagnostics placed at that line.
pub open spec fn lift_diags(ds: Seq<LineDiagModel>, line: int) -> Seq<DiagModel> {
    ds.map_values(|d: LineDiagModel| lift_diag(d, line))
}

} // verus!
