//! Text buffers: the contracts of the `String` operations that the form uses,
//! and line counting for the log pane.

use vstd::prelude::*;
use vstd::std_specs::iter::IteratorSpec;

verus! {

/// The text that is left after deleting the last character; an empty text
/// stays empty.
pub open spec fn without_last(s: Seq<char>) -> Seq<char> {
    if s.len() == 0 {
        s
    } else {
        s.drop_last()
    }
}

/// `String::push` appends the given character to the end of the string.
pub assume_specification[ String::push ](s: &mut String, ch: char)
    ensures
        final(s)@ == old(s)@.push(ch),
;

/// `String::pop` removes the last character and returns it; on an empty
/// string it returns `None` and leaves the string empty.
pub assume_specification[ String::pop ](s: &mut String) -> (removed: Option<char>)
    ensures
        final(s)@ == without_last(old(s)@),
        old(s)@.len() == 0 ==> removed is None,
        old(s)@.len() > 0 ==> removed == Some(old(s)@.last()),
;

/// Number of line feeds in a text.
pub open spec fn newline_count(s: Seq<char>) -> nat
    decreases s.len(),
{
    if s.len() == 0 {
        0
    } else {
        newline_count(s.drop_last()) + if s.last() == '\n' {
            1nat
        } else {
            0nat
        }
    }
}

/// Number of lines of a text: every line feed ends one line, and characters
/// after the last line feed form one more.
pub open spec fn line_count(s: Seq<char>) -> nat {
    newline_count(s) + if s.len() > 0 && s.last() != '\n' {
        1nat
    } else {
        0nat
    }
}

/// A text holds at most as many line feeds as characters.
pub proof fn lemma_newline_count_bound(s: Seq<char>)
    ensures
        newline_count(s) <= s.len(),
        s.len() > 0 && s.last() != '\n' ==> newline_count(s) < s.len(),
    decreases s.len(),
{
    if s.len() > 0 {
        lemma_newline_count_bound(s.drop_last());
    }
}

/// Line feeds of a concatenation are those of its two parts.
pub proof fn lemma_newline_count_concat(a: Seq<char>, b: Seq<char>)
    ensures
        newline_count(a + b) == newline_count(a) + newline_count(b),
    decreases b.len(),
{
    if b.len() == 0 {
        assert(a + b =~= a);
    } else {
        assert((a + b).drop_last() =~= a + b.drop_last());
        lemma_newline_count_concat(a, b.drop_last());
    }
}

/// A text without line feeds counts none.
pub proof fn lemma_newline_count_none(s: Seq<char>)
    requires
        forall|i: int| 0 <= i < s.len() ==> s[i] != '\n',
    ensures
        newline_count(s) == 0,
    decreases s.len(),
{
    if s.len() > 0 {
        lemma_newline_count_none(s.drop_last());
    }
}

/// Counts the lines of `text`.
pub fn count_lines(text: &str) -> (n: usize)
    ensures
        n == line_count(text@),
{
    broadcast use vstd::string::group_string_axioms;

    let total: usize = text.unicode_len();
    let mut it = text.chars();
    let mut seen: usize = 0;
    let mut newlines: usize = 0;
    let mut open_line: bool = false;
    loop
        invariant
            total == text@.len(),
            seen <= total,
            it.obeys_prophetic_iter_laws(),
            it.remaining() == text@.skip(seen as int),
            newlines == newline_count(text@.take(seen as int)),
            open_line == (seen > 0 && text@[seen - 1] != '\n'),
        ensures
            seen == total,
        decreases total - seen,
    {
        proof {
            lemma_newline_count_bound(text@.take(seen as int));
        }
        match it.next() {
            Some(c) => {
                assert(text@.skip(seen as int).len() > 0);
                assert(c == text@[seen as int]);
                assert(text@.skip(seen as int).drop_first() =~= text@.skip(seen + 1));
                assert(text@.take(seen + 1).drop_last() =~= text@.take(seen as int));
                if c == '\n' {
                    newlines = newlines + 1;
                    open_line = false;
                } else {
                    open_line = true;
                }
                seen = seen + 1;
            },
            None => {
                break ;
            },
        }
    }
    proof {
        assert(text@.take(seen as int) =~= text@);
        lemma_newline_count_bound(text@);
    }
    if open_line {
        newlines + 1
    } else {
        newlines
    }
}

} // verus!
