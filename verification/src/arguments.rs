//! Cutting a command line into its words.

use vstd::prelude::*;
use vstd::string::StrSliceExecFns;

verus! {

/// The index of the first blank of `s` at or behind `from`, or the length
/// of `s` where there is none.
pub open spec fn next_blank(s: Seq<char>, from: int) -> int
    decreases s.len() - from,
{
    if from >= s.len() {
        s.len() as int
    } else if s[from] == ' ' {
        from
    } else {
        next_blank(s, from + 1)
    }
}

/// `next_blank` lies between `from` and the end, no character before it is
/// a blank, and it is a blank unless it is the end.
pub proof fn lemma_next_blank(s: Seq<char>, from: int)
    requires
        0 <= from <= s.len(),
    ensures
        from <= next_blank(s, from) <= s.len(),
        forall|k: int| from <= k < next_blank(s, from) ==> s[k] != ' ',
        next_blank(s, from) < s.len() ==> s[next_blank(s, from)] == ' ',
    decreases s.len() - from,
{
    if from < s.len() && s[from] != ' ' {
        lemma_next_blank(s, from + 1);
    }
}

/// An index with the properties of `next_blank` is `next_blank`.
pub proof fn lemma_next_blank_unique(s: Seq<char>, from: int, end: int)
    requires
        0 <= from <= end <= s.len(),
        forall|k: int| from <= k < end ==> s[k] != ' ',
        end < s.len() ==> s[end] == ' ',
    ensures
        next_blank(s, from) == end,
    decreases end - from,
{
    if from < end {
        lemma_next_blank_unique(s, from + 1, end);
    }
}

/// The words of a command line, one after the other. Words are what stands
/// between single blanks; two blanks in a row have an empty word between
/// them.
pub struct ArgumentsIter<'a> {
    string: &'a str,
    index: usize,
}

impl<'a> ArgumentsIter<'a> {
    /// The command line.
    pub closed spec fn line(&self) -> Seq<char> {
        self.string@
    }

    /// Where the next word starts. There is no next word where this is the
    /// end of the line or behind it.
    pub closed spec fn position(&self) -> int {
        self.index as int
    }

    pub fn new(string: &'a str) -> (it: Self)
        ensures
            it.line() == string@,
            it.position() == 0,
    {
        Self { string, index: 0 }
    }

    /// The next word, if there is one: the characters from the position up
    /// to the next blank. The position moves behind that blank.
    pub fn next(&mut self) -> (word: Option<&'a str>)
        requires
            old(self).position() <= old(self).line().len(),
        ensures
            final(self).line() == old(self).line(),
            0 <= final(self).position() <= final(self).line().len(),
            old(self).position() >= old(self).line().len() ==> word is None && final(self).position() == old(self).position(),
            old(self).position() < old(self).line().len() ==> word is Some && word.unwrap()@
                == old(self).line().subrange(
                old(self).position(),
                next_blank(old(self).line(), old(self).position()),
            ) && final(self).position() == if next_blank(old(self).line(), old(self).position())
                < old(self).line().len() {
                next_blank(old(self).line(), old(self).position()) + 1
            } else {
                old(self).line().len() as int
            },
    {
        let len = self.string.unicode_len();
        if self.index >= len {
            return None;
        }
        let start = self.index;
        let mut end = start;
        while end < len && self.string.get_char(end) != ' '
            invariant
                start <= end <= len,
                len == self.string@.len(),
                forall|k: int| start <= k < end ==> self.string@[k] != ' ',
            decreases len - end,
        {
            end += 1;
        }
        proof {
            lemma_next_blank_unique(self.string@, start as int, end as int);
        }
        self.index = if end < len {
            end + 1
        } else {
            len
        };
        Some(self.string.substring_char(start, end))
    }
}

/// The words of `s` from the index `from` on.
pub open spec fn spec_words(s: Seq<char>, from: int) -> Seq<Seq<char>>
    decreases s.len() - from,
    via spec_words_decreases
{
    if from >= s.len() || from < 0 {
        Seq::empty()
    } else {
        seq![s.subrange(from, next_blank(s, from))] + spec_words(
            s,
            if next_blank(s, from) < s.len() {
                next_blank(s, from) + 1
            } else {
                s.len() as int
            },
        )
    }
}

#[via_fn]
proof fn spec_words_decreases(s: Seq<char>, from: int) {
    if 0 <= from < s.len() {
        lemma_next_blank(s, from);
    }
}

/// The views of the words.
pub open spec fn word_views(words: Seq<&str>) -> Seq<Seq<char>> {
    words.map_values(|w: &str| w@)
}

/// All words of a command line, in order.
pub fn arguments<'a>(line: &'a str) -> (words: Vec<&'a str>)
    ensures
        word_views(words@) == spec_words(line@, 0),
{
    let mut it = ArgumentsIter::new(line);
    let mut words: Vec<&'a str> = Vec::new();
    let ghost all = line@;
    assert(word_views(words@) =~= Seq::<Seq<char>>::empty());
    loop
        invariant
            all == line@,
            it.line() == all,
            it.position() <= all.len(),
            0 <= it.position(),
            word_views(words@) + spec_words(all, it.position()) == spec_words(all, 0),
        decreases all.len() - it.position(),
    {
        let ghost before = it.position();
        let ghost sofar = word_views(words@);
        proof {
            if before < all.len() {
                lemma_next_blank(all, before);
            }
        }
        match it.next() {
            Some(word) => {
                words.push(word);
                proof {
                    assert(word_views(words@) =~= sofar.push(word@));
                    assert(word_views(words@) + spec_words(all, it.position()) =~= sofar
                        + spec_words(all, before));
                }
            },
            None => {
                assert(spec_words(all, before) =~= Seq::<Seq<char>>::empty());
                assert(word_views(words@) =~= spec_words(all, 0));
                return words;
            },
        }
    }
}

} // verus!
