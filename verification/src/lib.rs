//! A small manuscript-markup toolkit for novel-style text.
//!
//! The crate turns raw manuscript text into a structured form and back into
//! publishable text:
//!
//! * [`parser`] holds the pipeline from raw text to structure: a terminator
//!   classifier, a line tokenizer, a line aggregator and a manuscript parser.
//! * [`tokens`] holds the structured form: tokens, lines, documents, sections.
//! * [`converter`] renders the structure into two output dialects that share
//!   one structural algorithm and differ only in item-level text and
//!   separators.
//! * [`diagnostics`] carries the non-fatal problems a parse can report.
//!
//! Every function is specified against a mathematical model over `Seq<char>`;
//! the models live next to the types and parsers they describe.

use vstd::prelude::*;

pub mod converter;
pub mod diagnostics;
pub mod parser;
pub mod text;
pub mod tokens;

pub use parser::manuscript_parser::ManuscriptParser;

verus! {

/// Sum of two sizes.
pub fn add(left: usize, right: usize) -> (r: usize)
    requires
        left + right <= usize::MAX,
    ensures
        r == left + right,
{
    left + right
}

} // verus!
