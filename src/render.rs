//! A plain-text picture of a round, for logs and debugging.

use vstd::prelude::*;
use crate::answer_history_letter::{AnswerHistoryLetter, LetterStatus};
use crate::api::history_view;
use crate::game_status::GameStatus;
use crate::text::{chars_of, string_from_chars};

verus! {

/// The character of a decimal digit.
pub open spec fn digit_char(d: nat) -> char {
    if d == 0 {
        '0'
    } else if d == 1 {
        '1'
    } else if d == 2 {
        '2'
    } else if d == 3 {
        '3'
    } else if d == 4 {
        '4'
    } else if d == 5 {
        '5'
    } else if d == 6 {
        '6'
    } else if d == 7 {
        '7'
    } else if d == 8 {
        '8'
    } else {
        '9'
    }
}

/// `n` written in decimal, without leading zeros.
pub open spec fn decimal(n: nat) -> Seq<char>
    decreases n,
{
    if n < 10 {
        seq![digit_char(n)]
    } else {
        decimal(n / 10).push(digit_char(n % 10))
    }
}

/// One letter: `(c) ` when correct, `[c] ` when present, `{c}` when absent.
pub open spec fn render_letter(l: AnswerHistoryLetter) -> Seq<char> {
    match l.status {
        LetterStatus::Correct => seq!['(', l.letter, ')', ' '],
        LetterStatus::Present => seq!['[', l.letter, ']', ' '],
        LetterStatus::Absent => seq!['{', l.letter, '}'],
    }
}

/// The letters of a row, one after the other.
pub open spec fn render_row(row: Seq<AnswerHistoryLetter>) -> Seq<char>
    decreases row.len(),
{
    if row.len() == 0 {
        Seq::empty()
    } else {
        render_row(row.drop_last()) + render_letter(row.last())
    }
}

/// Each row on a line of its own.
pub open spec fn render_rows(rows: Seq<Seq<AnswerHistoryLetter>>) -> Seq<char>
    decreases rows.len(),
{
    if rows.len() == 0 {
        Seq::empty()
    } else {
        render_rows(rows.drop_last()) + render_row(rows.last()) + seq!['\n']
    }
}

/// The whole picture: the answer, the number of rows, the rows, and whether
/// the round is won.
pub open spec fn render_status(
    answer: Seq<char>,
    rows: Seq<Seq<AnswerHistoryLetter>>,
    is_clear: bool,
) -> Seq<char> {
    "Answer: "@ + answer + "\nHistories:\nlen: "@ + decimal(rows.len()) + seq!['\n'] + render_rows(rows)
        + "is_clear: "@ + (if is_clear { "true"@ } else { "false"@ }) + seq!['\n']
}

/// Appends the characters of `s`.
fn append_str(out: &mut Vec<char>, s: &str)
    ensures
        final(out)@ == old(out)@ + s@,
{
    let cs = chars_of(s);
    let mut i: usize = 0;
    while i < cs.len()
        invariant
            i <= cs@.len(),
            cs@ == s@,
            out@ == old(out)@ + s@.take(i as int),
        decreases cs@.len() - i,
    {
        out.push(cs[i]);
        assert(s@.take(i + 1) == s@.take(i as int).push(cs@[i as int]));
        i += 1;
    }
    assert(s@.take(cs@.len() as int) == s@);
}

/// Appends `n` in decimal.
fn append_decimal(out: &mut Vec<char>, n: usize)
    ensures
        final(out)@ == old(out)@ + decimal(n as nat),
    decreases n,
{
    if n >= 10 {
        append_decimal(out, n / 10);
    }
    let d = n % 10;
    let c = if d == 0 {
        '0'
    } else if d == 1 {
        '1'
    } else if d == 2 {
        '2'
    } else if d == 3 {
        '3'
    } else if d == 4 {
        '4'
    } else if d == 5 {
        '5'
    } else if d == 6 {
        '6'
    } else if d == 7 {
        '7'
    } else if d == 8 {
        '8'
    } else {
        '9'
    };
    out.push(c);
    assert(n >= 10 ==> decimal(n as nat) == decimal((n / 10) as nat).push(c));
}

/// Appends one row.
fn append_row(out: &mut Vec<char>, row: &Vec<AnswerHistoryLetter>)
    ensures
        final(out)@ == old(out)@ + render_row(row@),
{
    let mut i: usize = 0;
    while i < row.len()
        invariant
            i <= row@.len(),
            out@ == old(out)@ + render_row(row@.take(i as int)),
        decreases row@.len() - i,
    {
        let l = row[i];
        assert(row@.take(i + 1).drop_last() == row@.take(i as int));
        match l.status {
            LetterStatus::Correct => {
                out.push('(');
                out.push(l.letter);
                out.push(')');
                out.push(' ');
            },
            LetterStatus::Present => {
                out.push('[');
                out.push(l.letter);
                out.push(']');
                out.push(' ');
            },
            LetterStatus::Absent => {
                out.push('{');
                out.push(l.letter);
                out.push('}');
            },
        }
        assert(out@ == old(out)@ + render_row(row@.take(i + 1)));
        i += 1;
    }
    assert(row@.take(row@.len() as int) == row@);
}

impl GameStatus {
    /// The round as text: the answer, the number of rows, each row with its
    /// verdicts, and whether the round is won.
    pub fn describe(&self) -> (r: String)
        ensures
            r@ == render_status(self.answer@, self.rows(), self.is_clear),
    {
        let mut out: Vec<char> = Vec::new();
        append_str(&mut out, "Answer: ");
        append_str(&mut out, self.answer.as_str());
        append_str(&mut out, "\nHistories:\nlen: ");
        append_decimal(&mut out, self.histories.len());
        out.push('\n');
        let ghost head = out@;
        let mut k: usize = 0;
        while k < self.histories.len()
            invariant
                k <= self.histories@.len(),
                out@ == head + render_rows(self.rows().take(k as int)),
            decreases self.histories@.len() - k,
        {
            append_row(&mut out, &self.histories[k]);
            out.push('\n');
            assert(self.rows().take(k + 1).drop_last() == self.rows().take(k as int));
            assert(out@ == head + render_rows(self.rows().take(k + 1)));
            k += 1;
        }
        assert(self.rows().take(self.histories@.len() as int) == self.rows());
        append_str(&mut out, "is_clear: ");
        if self.is_clear {
            append_str(&mut out, "true");
        } else {
            append_str(&mut out, "false");
        }
        out.push('\n');
        string_from_chars(&out)
    }
}

} // verus!
