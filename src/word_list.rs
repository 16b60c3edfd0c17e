//! The dictionary of accepted words, read from line-delimited text.

use vstd::prelude::*;
use rand::seq::SliceRandom;
use crate::text::{chars_of, string_from_chars, to_upper, upper_of};

verus! {

/// A line without the carriage return that may end it.
pub open spec fn trim_cr(line: Seq<char>) -> Seq<char> {
    if line.len() > 0 && line.last() == '\r' {
        line.drop_last()
    } else {
        line
    }
}

/// The entries collected so far, with the line that ends `line` added when it
/// is not blank; it is upper-cased on the way in.
pub open spec fn close_line(entries: Seq<Seq<char>>, line: Seq<char>) -> Seq<Seq<char>> {
    if trim_cr(line).len() > 0 {
        entries.push(upper_of(trim_cr(line)))
    } else {
        entries
    }
}

/// Reading `text` from its start: the entries of all finished lines, and the
/// line still open at its end.
pub open spec fn scan_lines(text: Seq<char>) -> (Seq<Seq<char>>, Seq<char>)
    decreases text.len(),
{
    if text.len() == 0 {
        (Seq::empty(), Seq::empty())
    } else {
        let (entries, line) = scan_lines(text.drop_last());
        if text.last() == '\n' {
            (close_line(entries, line), Seq::empty())
        } else {
            (entries, line.push(text.last()))
        }
    }
}

/// The words of a word-list text: one per line, blank lines skipped, each in
/// upper case.
pub open spec fn parse_words(text: Seq<char>) -> Seq<Seq<char>> {
    close_line(scan_lines(text).0, scan_lines(text).1)
}

/// A word list with no usable entry.
#[derive(Debug, Clone, Copy, PartialEq, Eq, Structural)]
pub struct EmptyListError;

/// An immutable, non-empty dictionary of upper-case words.
pub struct WordList {
    list: Vec<String>,
}

/// Relies on `SliceRandom::choose`: `None` on an empty slice, and otherwise
/// one of its elements, picked with the thread-local generator.
#[verifier::external_body]
fn choose_word(list: &Vec<String>) -> (r: Option<String>)
    ensures
        r is None <==> list@.len() == 0,
        r matches Some(w) ==> exists|i: int| 0 <= i < list@.len() && list@[i]@ == w@,
{
    list.choose(&mut rand::thread_rng()).cloned()
}

impl WordList {
    /// The words, in the order of the text they came from.
    pub closed spec fn words(&self) -> Seq<Seq<char>> {
        self.list@.map_values(|w: String| w@)
    }

    /// A usable list has at least one word.
    pub open spec fn wf(&self) -> bool {
        self.words().len() > 0
    }

    /// Builds the list from the text of a word file, one word per line.
    /// Fails when no line holds a word.
    pub fn new(text: &str) -> (r: Result<WordList, EmptyListError>)
        ensures
            parse_words(text@).len() > 0 <==> r is Ok,
            r matches Ok(wl) ==> wl.words() == parse_words(text@) && wl.wf(),
    {
        let chars = chars_of(text);
        let mut list: Vec<String> = Vec::new();
        let mut line: Vec<char> = Vec::new();
        let mut i: usize = 0;
        while i < chars.len()
            invariant
                i <= chars@.len(),
                chars@ == text@,
                (list@.map_values(|w: String| w@), line@) == scan_lines(text@.take(i as int)),
            decreases chars@.len() - i,
        {
            let c = chars[i];
            assert(text@.take(i + 1).drop_last() == text@.take(i as int));
            if c == '\n' {
                Self::close(&mut list, &line);
                line = Vec::new();
            } else {
                line.push(c);
            }
            i += 1;
        }
        assert(text@.take(chars@.len() as int) == text@);
        Self::close(&mut list, &line);
        if list.len() == 0 {
            Err(EmptyListError)
        } else {
            let r = WordList { list };
            Ok(r)
        }
    }

    /// Case-insensitive membership: whether the upper-case form of `word` is
    /// in the list.
    pub fn contains(&self, word: &String) -> (r: bool)
        ensures
            r == self.words().contains(upper_of(word@)),
    {
        let upper = to_upper(word.as_str());
        self.contains_upper(&upper)
    }

    /// Exact membership of an already upper-cased word.
    pub fn contains_upper(&self, word: &String) -> (r: bool)
        ensures
            r == self.words().contains(word@),
    {
        let mut i: usize = 0;
        while i < self.list.len()
            invariant
                i <= self.list@.len(),
                forall|j: int| 0 <= j < i ==> self.words()[j] != word@,
            decreases self.list@.len() - i,
        {
            if self.list[i] == *word {
                assert(self.words()[i as int] == word@);
                return true;
            }
            i += 1;
        }
        false
    }

    /// One word of the list, drawn at random.
    pub fn get_random_word(&self) -> (r: String)
        requires
            self.wf(),
        ensures
            self.words().contains(r@),
    {
        match choose_word(&self.list) {
            Some(w) => {
                let ghost i = choose|i: int| 0 <= i < self.list@.len() && self.list@[i]@ == w@;
                assert(self.words()[i] == w@);
                w
            },
            None => {
                // `wf` rules out an empty list.
                self.list[0].clone()
            },
        }
    }

    /// Adds the word that `line` holds, if any, to `list`.
    fn close(list: &mut Vec<String>, line: &Vec<char>)
        ensures
            final(list)@.map_values(|w: String| w@)
                == close_line(old(list)@.map_values(|w: String| w@), line@),
    {
        let mut end = line.len();
        if end > 0 && line[end - 1] == '\r' {
            end -= 1;
        }
        if end > 0 {
            let mut trimmed: Vec<char> = Vec::new();
            let mut j: usize = 0;
            while j < end
                invariant
                    j <= end <= line@.len(),
                    trimmed@ == line@.take(j as int),
                decreases end - j,
            {
                trimmed.push(line[j]);
                j += 1;
            }
            assert(trimmed@ == trim_cr(line@));
            let s = string_from_chars(&trimmed);
            let w = to_upper(s.as_str());
            list.push(w);
            assert(list@.map_values(|w: String| w@)
                == old(list)@.map_values(|w: String| w@).push(upper_of(trim_cr(line@))));
        } else {
            assert(trim_cr(line@).len() == 0);
        }
    }
}

} // verus!
