//! The pipeline from raw text to structure.
//!
//! Leaf first: the terminator classifier, the line tokenizer, the line
//! aggregator, and the manuscript parser.

pub mod line_item_parser;
pub mod line_parser;
pub mod manuscript_parser;
pub mod section_parser;
pub mod terminator_parser;
