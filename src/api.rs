//! What the engine hands back after each request.

use vstd::prelude::*;
use crate::answer_history_letter::AnswerHistoryLetter;

verus! {

/// The rows of a round, oldest first, one row per accepted guess.
pub type AnswerHistory = Vec<Vec<AnswerHistoryLetter>>;

/// The abstract value of a history: its rows as sequences.
pub open spec fn history_view(h: Seq<Vec<AnswerHistoryLetter>>) -> Seq<Seq<AnswerHistoryLetter>> {
    Seq::new(h.len(), |k: int| h[k]@)
}

/// A snapshot of the history, and whether the request changed the round.
pub struct AnswerHistoryResponse {
    /// The rows of the round after the request.
    pub histories: AnswerHistory,
    /// Whether the request was accepted.
    pub is_update: bool,
}

/// A copy of a history, row by row.
pub fn copy_history(h: &AnswerHistory) -> (r: AnswerHistory)
    ensures
        history_view(r@) == history_view(h@),
{
    let mut out: AnswerHistory = Vec::new();
    let mut i: usize = 0;
    while i < h.len()
        invariant
            i <= h@.len(),
            out@.len() == i,
            history_view(out@) == history_view(h@).take(i as int),
        decreases h@.len() - i,
    {
        let row = &h[i];
        let mut copy: Vec<AnswerHistoryLetter> = Vec::new();
        let mut j: usize = 0;
        while j < row.len()
            invariant
                j <= row@.len(),
                copy@ == row@.take(j as int),
            decreases row@.len() - j,
        {
            copy.push(row[j]);
            j += 1;
        }
        assert(copy@ =~= row@);
        out.push(copy);
        assert(history_view(out@) =~= history_view(h@).take(i + 1));
        i += 1;
    }
    assert(history_view(h@).take(h@.len() as int) =~= history_view(h@));
    out
}

} // verus!
