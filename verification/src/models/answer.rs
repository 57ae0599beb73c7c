//! Judging a typed answer.

use vstd::prelude::*;

verus! {

/// Something a free-text answer can be checked against.
pub trait ValidateAnswer {
    /// Whether `answer` counts as right.
    spec fn accepts(&self, answer: Seq<char>) -> bool;

    /// Checks a typed answer. The comparison is exact and case-sensitive.
    fn validate_answer(&self, answer: &str) -> (ok: bool)
        ensures
            ok == self.accepts(answer@),
    ;
}

/// The verdict on one symbol.
#[derive(Debug, Clone, Copy, PartialEq, Eq, Hash, Structural)]
pub enum AnswerResult {
    Good,
    Wrong,
}

} // verus!
