//! The verdict on one letter of a guess.

use vstd::prelude::*;

verus! {

/// Where a guessed letter stands with respect to the answer.
#[derive(Debug, Clone, Copy, PartialEq, Eq, Structural)]
pub enum LetterStatus {
    /// The answer has this letter at this very position.
    Correct,
    /// The answer has this letter, at another position.
    Present,
    /// The answer does not have this letter.
    Absent,
}

/// One guessed letter together with its verdict.
#[derive(Debug, Clone, Copy, PartialEq, Eq, Structural)]
pub struct AnswerHistoryLetter {
    /// The guessed character.
    pub letter: char,
    /// The verdict on it.
    pub status: LetterStatus,
}

impl AnswerHistoryLetter {
    /// Pairs a letter with its verdict.
    pub fn new(letter: char, status: LetterStatus) -> (r: Self)
        ensures
            r.letter == letter,
            r.status == status,
    {
        Self { letter, status }
    }
}

} // verus!
