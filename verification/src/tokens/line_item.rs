//! Tokens for novel-style text, and their mathematical models.

use vstd::prelude::*;

verus! {

/// One token of a manuscript line.
///
/// Tokens are produced by the line tokenizer and consumed by the renderers.
/// `EndOfSection` is part of the token vocabulary for renderers but is never
/// produced by the tokenizer itself; no explicit end-of-line marker exists,
/// callers rely on the enclosing [`crate::tokens::line::Line`] for boundaries.
#[derive(Debug, PartialEq, Eq)]
pub enum LineItem {
    /// Plain text, rendered as-is.
    Text(String),
    /// A sentence delimiter such as `,` or a full-width comma.
    Comma(String),
    /// An inline comment; its content is dropped on render.
    Comment(String),
    /// Base text with a ruby (furigana) annotation rendered alongside it.
    TextWithRuby((String, String)),
    /// Base text with emphasis dots: one mark above each character.
    TextWithSesame((String, char)),
    /// A run of sentence-ending punctuation, classified by flavor.
    EndOfSentence(Terminator),
    /// End of a section such as a scene or a chapter, with its marker text.
    EndOfSection(String),
}

/// Attribute forms for annotated rich text.
///
/// Reserved: the current token vocabulary carries the ruby text inline in
/// [`LineItem::TextWithRuby`]; this classification is kept for callers that
/// tag annotations explicitly.
#[derive(Debug, PartialEq, Eq)]
pub enum Attribute {
    /// Ruby (furigana): a small guide text above the base text.
    Ruby(String),
}

/// A classified run of sentence-ending punctuation.
#[derive(Debug, PartialEq, Eq)]
pub enum Terminator {
    /// A run that does not end in an exclamation or question mark.
    Normal(String),
    /// A run ending in `!`, `?` or their full-width forms.
    Exclamation(String),
}

/// Model of a [`Terminator`]: the same classification over `Seq<char>`.
pub enum TerminatorModel {
    Normal(Seq<char>),
    Exclamation(Seq<char>),
}

/// Model of a [`LineItem`] over `Seq<char>`.
pub enum TokenModel {
    Text(Seq<char>),
    Comma(Seq<char>),
    Comment(Seq<char>),
    TextWithRuby(Seq<char>, Seq<char>),
    TextWithSesame(Seq<char>, char),
    EndOfSentence(TerminatorModel),
    EndOfSection(Seq<char>),
}

impl View for Terminator {
    type V = TerminatorModel;

    open spec fn view(&self) -> TerminatorModel {
        match self {
            Terminator::Normal(s) => TerminatorModel::Normal(s@),
            Terminator::Exclamation(s) => TerminatorModel::Exclamation(s@),
        }
    }
}

impl View for LineItem {
    type V = TokenModel;

    open spec fn view(&self) -> TokenModel {
        match self {
            LineItem::Text(s) => TokenModel::Text(s@),
            LineItem::Comma(s) => TokenModel::Comma(s@),
            LineItem::Comment(s) => TokenModel::Comment(s@),
            LineItem::TextWithRuby(p) => TokenModel::TextWithRuby(p.0@, p.1@),
            LineItem::TextWithSesame(p) => TokenModel::TextWithSesame(p.0@, p.1),
            LineItem::EndOfSentence(t) => TokenModel::EndOfSentence(t@),
            LineItem::EndOfSection(s) => TokenModel::EndOfSection(s@),
        }
    }
}

/// The models of a sequence of tokens.
pub open spec fn items_model(items: Seq<LineItem>) -> Seq<TokenModel> {
    items.map_values(|t: LineItem| t@)
}

/// Mapping to models commutes with appending one token.
pub proof fn lemma_items_model_push(items: Seq<LineItem>, t: LineItem)
    ensures
        items_model(items.push(t)) == items_model(items).push(t@),
{
    assert(items_model(items.push(t)) =~= items_model(items).push(t@));
}

/// True of the characters that make a terminator run exclamatory.
pub open spec fn is_exclamation_char(c: char) -> bool {
    c == '!' || c == '?' || c == '！' || c == '？'
}

/// Classification of a punctuation run: exclamatory exactly when it ends in
/// `!`, `?` or their full-width forms; the empty run is `Normal`.
pub open spec fn classify_terminator(s: Seq<char>) -> TerminatorModel {
    if s.len() > 0 && is_exclamation_char(s.last()) {
        TerminatorModel::Exclamation(s)
    } else {
        TerminatorModel::Normal(s)
    }
}

} // verus!
