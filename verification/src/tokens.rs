//! The structured form of a manuscript: tokens, lines and sections.

pub mod line;
pub mod line_item;
pub mod section;
