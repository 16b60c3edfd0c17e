//! One round of the game: the answer, the guesses so far, and whether it is won.

use vstd::prelude::*;
use crate::answer_history_letter::{AnswerHistoryLetter, LetterStatus};
use crate::api::{copy_history, history_view, AnswerHistory, AnswerHistoryResponse};
use crate::text::{chars_of, to_upper, upper_of};
use crate::word_list::WordList;

verus! {

/// How many guesses a round admits.
pub const MAX_ATTEMPTS: usize = 6;

/// The verdict on position `i` of `guess`: `Correct` where the answer has the
/// same letter there, else `Present` where the answer has the letter anywhere,
/// else `Absent`. Repeated letters are each judged on their own.
pub open spec fn status_at(answer: Seq<char>, guess: Seq<char>, i: int) -> LetterStatus {
    if guess[i] == answer[i] {
        LetterStatus::Correct
    } else if answer.contains(guess[i]) {
        LetterStatus::Present
    } else {
        LetterStatus::Absent
    }
}

/// Letter `i` of `guess`, with its verdict.
pub open spec fn letter_at(answer: Seq<char>, guess: Seq<char>, i: int) -> AnswerHistoryLetter {
    AnswerHistoryLetter { letter: guess[i], status: status_at(answer, guess, i) }
}

/// The row that `guess` earns against `answer`, one letter per position.
pub open spec fn row_of(answer: Seq<char>, guess: Seq<char>) -> Seq<AnswerHistoryLetter> {
    Seq::new(guess.len(), |i: int| letter_at(answer, guess, i))
}

/// Whether a normalized guess is taken in a round with this state.
pub open spec fn accepts(
    answer: Seq<char>,
    words: Seq<Seq<char>>,
    is_clear: bool,
    n_rows: int,
    guess: Seq<char>,
) -> bool {
    &&& guess.len() == answer.len()
    &&& words.contains(guess)
    &&& !is_clear
    &&& n_rows < MAX_ATTEMPTS
}

/// Judges each letter of `guess` against `answer`.
pub fn evaluate(answer: &Vec<char>, guess: &Vec<char>) -> (r: Vec<AnswerHistoryLetter>)
    requires
        guess@.len() == answer@.len(),
    ensures
        r@ == row_of(answer@, guess@),
{
    let mut row: Vec<AnswerHistoryLetter> = Vec::new();
    let mut i: usize = 0;
    while i < guess.len()
        invariant
            i <= guess@.len(),
            guess@.len() == answer@.len(),
            row@ == row_of(answer@, guess@).take(i as int),
        decreases guess@.len() - i,
    {
        let c = guess[i];
        let status = if c == answer[i] {
            LetterStatus::Correct
        } else if contains_char(answer, c) {
            LetterStatus::Present
        } else {
            LetterStatus::Absent
        };
        row.push(AnswerHistoryLetter::new(c, status));
        assert(status == status_at(answer@, guess@, i as int));
        assert(row@ =~= row_of(answer@, guess@).take(i + 1));
        i += 1;
    }
    assert(row_of(answer@, guess@).take(guess@.len() as int) =~= row_of(answer@, guess@));
    row
}

/// Whether `c` occurs in `v`.
fn contains_char(v: &Vec<char>, c: char) -> (r: bool)
    ensures
        r == v@.contains(c),
{
    let mut i: usize = 0;
    while i < v.len()
        invariant
            i <= v@.len(),
            forall|j: int| 0 <= j < i ==> v@[j] != c,
        decreases v@.len() - i,
    {
        if v[i] == c {
            return true;
        }
        i += 1;
    }
    false
}

/// The state of a round.
pub struct GameStatus {
    /// The word to find, in upper case.
    pub answer: String,
    /// The rows of the accepted guesses, oldest first.
    pub histories: AnswerHistory,
    /// Whether the answer has been guessed.
    pub is_clear: bool,
    /// The dictionary that guesses are checked against.
    pub word_list: WordList,
}

impl GameStatus {
    /// The rows of the round as sequences.
    pub open spec fn rows(&self) -> Seq<Seq<AnswerHistoryLetter>> {
        history_view(self.histories@)
    }

    /// A consistent round: the answer comes from a usable dictionary, there
    /// are at most `MAX_ATTEMPTS` rows, and each row is as long as the answer.
    pub open spec fn wf(&self) -> bool {
        &&& self.word_list.wf()
        &&& self.word_list.words().contains(self.answer@)
        &&& self.histories@.len() <= MAX_ATTEMPTS
        &&& forall|k: int| 0 <= k < self.histories@.len()
            ==> #[trigger] self.histories@[k]@.len() == self.answer@.len()
    }

    /// Whether this round takes the already upper-cased `guess`.
    pub open spec fn accepts(&self, guess: Seq<char>) -> bool {
        accepts(
            self.answer@,
            self.word_list.words(),
            self.is_clear,
            self.histories@.len() as int,
            guess,
        )
    }

    /// Starts a round on an answer drawn from `word_list`.
    pub fn new(word_list: WordList) -> (r: Self)
        requires
            word_list.wf(),
        ensures
            r.wf(),
            r.word_list == word_list,
            r.word_list.words().contains(r.answer@),
            r.histories@.len() == 0,
            !r.is_clear,
    {
        let answer = word_list.get_random_word();
        Self { answer, histories: Vec::new(), is_clear: false, word_list }
    }

    /// Takes a guess already in upper case. It is turned down, with nothing
    /// changed, unless it is as long as the answer, is in the dictionary, the
    /// round is not won, and fewer than `MAX_ATTEMPTS` rows stand. Otherwise
    /// its row is added, and the round is won when it is the answer.
    pub fn push_upper(&mut self, guess: String) -> (r: AnswerHistoryResponse)
        ensures
            r.is_update == old(self).accepts(guess@),
            history_view(r.histories@) == final(self).rows(),
            final(self).answer == old(self).answer,
            final(self).word_list == old(self).word_list,
            !old(self).accepts(guess@) ==> *final(self) == *old(self),
            old(self).accepts(guess@) ==> {
                &&& final(self).rows() == old(self).rows().push(row_of(old(self).answer@, guess@))
                &&& final(self).is_clear == (guess@ == old(self).answer@)
            },
            old(self).wf() ==> final(self).wf(),
            guess@.len() != old(self).answer@.len() ==> !r.is_update && *final(self) == *old(self),
            !old(self).word_list.words().contains(guess@) ==> !r.is_update && *final(self)
                == *old(self),
            old(self).is_clear ==> !r.is_update && *final(self) == *old(self),
            old(self).histories@.len() >= MAX_ATTEMPTS ==> !r.is_update && *final(self)
                == *old(self),
            r.is_update && guess@ == old(self).answer@ ==> {
                &&& final(self).is_clear
                &&& forall|i: int|
                    0 <= i < guess@.len() ==> (#[trigger] final(self).rows().last()[i]).status
                        == LetterStatus::Correct
            },
    {
        let answer_chars = chars_of(self.answer.as_str());
        let guess_chars = chars_of(guess.as_str());
        if guess_chars.len() != answer_chars.len() || !self.word_list.contains_upper(&guess)
            || self.is_clear || self.histories.len() >= MAX_ATTEMPTS {
            return AnswerHistoryResponse { histories: copy_history(&self.histories), is_update: false };
        }
        let row = evaluate(&answer_chars, &guess_chars);
        let ghost before = self.histories@;
        self.histories.push(row);
        assert(self.rows() =~= history_view(before).push(row_of(self.answer@, guess@)));
        if guess == self.answer {
            self.is_clear = true;
        }
        AnswerHistoryResponse { histories: copy_history(&self.histories), is_update: true }
    }

    /// Takes a player's guess in any case: [`GameStatus::push_upper`] applied
    /// to its upper-case form.
    pub fn push(&mut self, word: String) -> (r: AnswerHistoryResponse)
        ensures
            r.is_update == old(self).accepts(upper_of(word@)),
            history_view(r.histories@) == final(self).rows(),
            final(self).answer == old(self).answer,
            final(self).word_list == old(self).word_list,
            !old(self).accepts(upper_of(word@)) ==> *final(self) == *old(self),
            old(self).accepts(upper_of(word@)) ==> {
                &&& final(self).rows() == old(self).rows().push(
                    row_of(old(self).answer@, upper_of(word@)),
                )
                &&& final(self).is_clear == (upper_of(word@) == old(self).answer@)
            },
            old(self).wf() ==> final(self).wf(),
            upper_of(word@).len() != old(self).answer@.len() ==> !r.is_update && *final(self)
                == *old(self),
            !old(self).word_list.words().contains(upper_of(word@)) ==> !r.is_update
                && *final(self) == *old(self),
            old(self).is_clear ==> !r.is_update && *final(self) == *old(self),
            old(self).histories@.len() >= MAX_ATTEMPTS ==> !r.is_update && *final(self)
                == *old(self),
            r.is_update && upper_of(word@) == old(self).answer@ ==> {
                &&& final(self).is_clear
                &&& forall|i: int|
                    0 <= i < upper_of(word@).len() ==> (#[trigger] final(self).rows().last()[i]).status
                        == LetterStatus::Correct
            },
    {
        let guess = to_upper(word.as_str());
        self.push_upper(guess)
    }

    /// Starts a new round on the same dictionary: a fresh answer drawn from
    /// it, no rows, not won.
    pub fn reset(&mut self) -> (r: AnswerHistoryResponse)
        requires
            old(self).word_list.wf(),
        ensures
            final(self).wf(),
            final(self).word_list == old(self).word_list,
            final(self).word_list.words().contains(final(self).answer@),
            final(self).histories@.len() == 0,
            !final(self).is_clear,
            r.histories@.len() == 0,
            r.is_update,
    {
        self.answer = self.word_list.get_random_word();
        self.histories.clear();
        self.is_clear = false;
        AnswerHistoryResponse { histories: Vec::new(), is_update: true }
    }
}

} // verus!
