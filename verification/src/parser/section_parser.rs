//! The line aggregator: a block of raw lines to classified lines.
//!
//! Each raw line is classified by its leading characters — `//` makes a
//! comment line, a full-width opening quote a conversation, anything else a
//! paragraph — and token extraction is delegated to the line tokenizer.  A
//! blank line yields an empty paragraph.

use vstd::prelude::*;
use vstd::string::*;

use crate::diagnostics::{
    diags_model, lemma_diags_model_push, lift_diag, lift_diags, line_diags_model, DiagModel,
    Diagnostic, DiagnosticKind,
};
use crate::parser::line_parser::{tokenize_line, LineParser};
use crate::text::{split_lines, split_lines_vec, strings_model, substring_chars, to_chars};
use crate::tokens::line::{lemma_lines_model_push, lines_model, Line, LineModel};

verus! {

/// Whether the raw line is a whole-line comment.
pub open spec fn is_comment_line(s: Seq<char>) -> bool {
    s.len() >= 2 && s[0] == '/' && s[1] == '/'
}

/// Whether the raw line opens a conversation.
pub open spec fn is_conversation_line(s: Seq<char>) -> bool {
    s.len() > 0 && s[0] == '「'
}

/// The classified line one raw line stands for.
pub open spec fn line_model_of(s: Seq<char>) -> LineModel {
    if is_comment_line(s) {
        LineModel::Comment(s.skip(2))
    } else if is_conversation_line(s) {
        LineModel::Conversation(tokenize_line(s).tokens)
    } else {
        LineModel::Paragraph(tokenize_line(s).tokens)
    }
}

/// The classified lines of a block of raw lines.
pub open spec fn aggregate_lines_model(lines: Seq<Seq<char>>) -> Seq<LineModel> {
    lines.map_values(|l: Seq<char>| line_model_of(l))
}

/// The diagnostics of a block of raw lines, each placed at its line number
/// counted from `base`; comment lines are not tokenized and report nothing.
pub open spec fn aggregate_diags_model(lines: Seq<Seq<char>>, base: int) -> Seq<DiagModel>
    decreases lines.len(),
{
    if lines.len() == 0 {
        Seq::empty()
    } else {
        let head = if is_comment_line(lines[0]) {
            Seq::<DiagModel>::empty()
        } else {
            lift_diags(tokenize_line(lines[0]).diags, base)
        };
        head + aggregate_diags_model(lines.skip(1), base + 1)
    }
}

/// Classifies and tokenizes each line of the block, reporting diagnostics at
/// line numbers counted from `base`.
pub(crate) fn aggregate(lines: &Vec<String>, base: usize) -> (r: (Vec<Line>, Vec<Diagnostic>))
    requires
        base + lines@.len() <= usize::MAX,
    ensures
        lines_model(r.0@) == aggregate_lines_model(strings_model(lines@)),
        diags_model(r.1@) == aggregate_diags_model(strings_model(lines@), base as int),
{
    let ghost sm = strings_model(lines@);
    let mut lout: Vec<Line> = Vec::new();
    let mut dout: Vec<Diagnostic> = Vec::new();
    let mut i: usize = 0;
    proof {
        assert(lines_model(lout@) =~= aggregate_lines_model(sm.take(0)));
        assert(sm.skip(0) =~= sm);
        assert(diags_model(dout@) =~= Seq::<DiagModel>::empty());
        assert(Seq::<DiagModel>::empty() + aggregate_diags_model(sm, base as int)
            =~= aggregate_diags_model(sm, base as int));
    }
    while i < lines.len()
        invariant
            i <= lines@.len(),
            base + lines@.len() <= usize::MAX,
            sm == strings_model(lines@),
            lines_model(lout@) == aggregate_lines_model(sm.take(i as int)),
            aggregate_diags_model(sm, base as int) == diags_model(dout@)
                + aggregate_diags_model(sm.skip(i as int), base + i as int),
        decreases lines@.len() - i,
    {
        let ghost rem = sm.skip(i as int);
        proof {
            assert(rem[0] == sm[i as int]);
            assert(rem.skip(1) =~= sm.skip(i + 1 as int));
            assert(sm[i as int] == lines@[i as int]@);
        }
        let line = &lines[i];
        let chars = to_chars(line.as_str());
        let new_line: Line;
        if chars.len() >= 2 && chars[0] == '/' && chars[1] == '/' {
            let content = substring_chars(&chars, 2, chars.len());
            proof {
                assert(chars@.subrange(2, chars@.len() as int) =~= chars@.skip(2));
            }
            new_line = Line::Comment(content);
            proof {
                assert(aggregate_diags_model(rem, base + i as int) == Seq::<
                    DiagModel,
                >::empty() + aggregate_diags_model(rem.skip(1), base + i + 1 as int));
                assert(Seq::<DiagModel>::empty() + aggregate_diags_model(
                    rem.skip(1),
                    base + i + 1 as int,
                ) =~= aggregate_diags_model(rem.skip(1), base + i + 1 as int));
            }
        } else {
            let parser = LineParser::new(line.as_str());
            let (items, ldiags) = parser.parse();
            if chars.len() > 0 && chars[0] == '「' {
                new_line = Line::Conversation(items);
            } else {
                new_line = Line::Paragraph(items);
            }
            let ghost lifted = lift_diags(tokenize_line(sm[i as int]).diags, base + i as int);
            let ghost dstart = dout@;
            let mut j: usize = 0;
            proof {
                assert(diags_model(dout@) =~= diags_model(dstart) + lifted.take(0));
            }
            while j < ldiags.len()
                invariant
                    j <= ldiags@.len(),
                    base + i < usize::MAX,
                    lifted == lift_diags(line_diags_model(ldiags@), base + i as int),
                    diags_model(dout@) == diags_model(dstart) + lifted.take(j as int),
                decreases ldiags@.len() - j,
            {
                let d = Diagnostic {
                    kind: DiagnosticKind::MalformedAnnotation,
                    line: base + i,
                    offset: ldiags[j].offset,
                    snippet: ldiags[j].snippet.clone(),
                };
                proof {
                    lemma_diags_model_push(dout@, d);
                    assert(d@ == lifted[j as int]);
                    assert(lifted.take(j + 1 as int) =~= lifted.take(j as int).push(
                        lifted[j as int],
                    ));
                }
                dout.push(d);
                j += 1;
            }
            proof {
                assert(lifted.take(ldiags@.len() as int) =~= lifted);
                assert(aggregate_diags_model(rem, base + i as int) == lifted
                    + aggregate_diags_model(rem.skip(1), base + i + 1 as int));
                assert((diags_model(dstart) + lifted) + aggregate_diags_model(
                    rem.skip(1),
                    base + i + 1 as int,
                ) =~= diags_model(dstart) + (lifted + aggregate_diags_model(
                    rem.skip(1),
                    base + i + 1 as int,
                )));
            }
        }
        proof {
            assert(new_line@ == line_model_of(sm[i as int]));
            lemma_lines_model_push(lout@, new_line);
            assert(aggregate_lines_model(sm.take(i + 1 as int)) =~= aggregate_lines_model(
                sm.take(i as int),
            ).push(line_model_of(sm[i as int])));
        }
        lout.push(new_line);
        i += 1;
    }
    proof {
        assert(sm.take(sm.len() as int) =~= sm);
        assert(aggregate_diags_model(sm.skip(sm.len() as int), base + sm.len() as int)
            =~= Seq::<DiagModel>::empty());
        assert(diags_model(dout@) + Seq::<DiagModel>::empty() =~= diags_model(dout@));
    }
    (lout, dout)
}

/// Aggregator for one block of raw lines.
pub struct SectionParser {
    pub source: String,
}

impl SectionParser {
    /// An aggregator over the given block.
    pub fn new(section: &str) -> (p: Self)
        ensures
            p.source@ == section@,
    {
        Self { source: section.to_owned() }
    }

    /// The classified lines of the block, in order, with the diagnostics of
    /// every tokenized line.
    pub fn parse(&self) -> (r: (Vec<Line>, Vec<Diagnostic>))
        ensures
            lines_model(r.0@) == aggregate_lines_model(split_lines(self.source@)),
            diags_model(r.1@) == aggregate_diags_model(split_lines(self.source@), 0),
    {
        let chars = to_chars(self.source.as_str());
        let lines = split_lines_vec(&chars);
        let n = lines.len();
        proof {
            assert(lines@.len() == n as int);
        }
        aggregate(&lines, 0)
    }
}

} // verus!
