//! One rendered line of a scene body, and its model.

use vstd::prelude::*;

use crate::tokens::line_item::{items_model, LineItem, TokenModel};

verus! {

/// One line of a scene body, classified by its leading characters.
///
/// `Quotation` is reserved: no classification rule currently produces it,
/// but every renderer gives it a meaning.
#[derive(Debug, PartialEq, Eq)]
pub enum Line {
    /// An ordinary narrative line.
    Paragraph(Vec<LineItem>),
    /// A line of dialogue, opened by a full-width opening quote.
    Conversation(Vec<LineItem>),
    /// A block-quoted line (reserved).
    Quotation(Vec<LineItem>),
    /// A whole-line comment: the text after the comment marker, dropped on
    /// render.
    Comment(String),
}

/// Model of a [`Line`] over token models.
pub enum LineModel {
    Paragraph(Seq<TokenModel>),
    Conversation(Seq<TokenModel>),
    Quotation(Seq<TokenModel>),
    Comment(Seq<char>),
}

impl View for Line {
    type V = LineModel;

    open spec fn view(&self) -> LineModel {
        match self {
            Line::Paragraph(items) => LineModel::Paragraph(items_model(items@)),
            Line::Conversation(items) => LineModel::Conversation(items_model(items@)),
            Line::Quotation(items) => LineModel::Quotation(items_model(items@)),
            Line::Comment(s) => LineModel::Comment(s@),
        }
    }
}

/// The models of a sequence of lines.
pub open spec fn lines_model(lines: Seq<Line>) -> Seq<LineModel> {
    lines.map_values(|l: Line| l@)
}

/// Mapping to models commutes with appending one line.
pub proof fn lemma_lines_model_push(lines: Seq<Line>, l: Line)
    ensures
        lines_model(lines.push(l)) == lines_model(lines).push(l@),
{
    assert(lines_model(lines.push(l)) =~= lines_model(lines).push(l@));
}

} // verus!
