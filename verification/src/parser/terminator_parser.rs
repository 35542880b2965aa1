//! Classifies a run of sentence-ending punctuation.

use vstd::prelude::*;
use vstd::string::*;

use crate::tokens::line_item::{classify_terminator, Terminator};

verus! {

/// Classifier for one punctuation run.
///
/// The classification is a pure, total function of the stored text: a run is
/// `Exclamation` exactly when it ends in `!`, `?` or their full-width forms,
/// and `Normal` otherwise; the empty run is `Normal`.
pub struct TerminatorParser {
    pub source: String,
}

impl TerminatorParser {
    /// A classifier over the given run.
    pub fn new(text: &str) -> (p: Self)
        ensures
            p.source@ == text@,
    {
        Self { source: text.to_owned() }
    }

    /// The classified run.
    pub fn parse(&self) -> (t: Terminator)
        ensures
            t@ == classify_terminator(self.source@),
    {
        let n = self.source.as_str().unicode_len();
        if n == 0 {
            Terminator::Normal(self.source.clone())
        } else {
            let c = self.source.as_str().get_char(n - 1);
            proof {
                assert(self.source@.last() == self.source@[n - 1 as int]);
            }
            if c == '!' || c == '?' || c == '！' || c == '？' {
                Terminator::Exclamation(self.source.clone())
            } else {
                Terminator::Normal(self.source.clone())
            }
        }
    }
}

} // verus!
