//! Counts over a document's text.
use vstd::prelude::*;
use vstd::utf8::encode_utf8;

verus! {

/// Number of `'\n'` characters in `s`.
pub open spec fn newline_count(s: Seq<char>) -> nat
    decreases s.len(),
{
    if s.len() == 0 {
        0
    } else {
        newline_count(s.drop_last()) + if s.last() == '\n' { 1nat } else { 0nat }
    }
}

/// Number of lines of `s`: one per line terminator, plus one for a last line
/// that has text and no terminator.
pub open spec fn line_count_of(s: Seq<char>) -> nat {
    newline_count(s) + if s.len() > 0 && s.last() != '\n' { 1nat } else { 0nat }
}

/// Number of bytes of `s` in UTF-8.
pub open spec fn byte_count_of(s: Seq<char>) -> nat {
    encode_utf8(s).len()
}

/// Every character takes at least one byte in UTF-8.
pub proof fn lemma_bytes_at_least_chars(s: Seq<char>)
    ensures
        byte_count_of(s) >= s.len(),
    decreases s.len(),
{
    if s.len() > 0 {
        lemma_bytes_at_least_chars(s.drop_first());
    }
}

/// There are never more newlines than characters.
pub proof fn lemma_newlines_at_most_chars(s: Seq<char>)
    ensures
        newline_count(s) <= s.len(),
    decreases s.len(),
{
    if s.len() > 0 {
        lemma_newlines_at_most_chars(s.drop_last());
    }
}

/// There are never more lines than characters.
pub proof fn lemma_lines_at_most_chars(s: Seq<char>)
    ensures
        line_count_of(s) <= s.len(),
{
    if s.len() > 0 {
        lemma_newlines_at_most_chars(s.drop_last());
    }
}

/// Line, character and byte counts of a text.
#[derive(Clone, Copy, Debug, PartialEq, Eq)]
pub struct DocStats {
    pub lines: usize,
    pub chars: usize,
    pub bytes: usize,
}

impl DocStats {
    /// The counts that `stats_of` reports for `s`.
    pub open spec fn describes(self, s: Seq<char>) -> bool {
        &&& self.lines as nat == line_count_of(s)
        &&& self.chars as nat == s.len()
        &&& self.bytes as nat == byte_count_of(s)
    }
}

/// Newlines of two texts one after the other add up.
pub proof fn lemma_newline_count_concat(a: Seq<char>, b: Seq<char>)
    ensures
        newline_count(a + b) == newline_count(a) + newline_count(b),
    decreases b.len(),
{
    if b.len() == 0 {
        assert(a + b =~= a);
    } else {
        assert((a + b).drop_last() =~= a + b.drop_last());
        lemma_newline_count_concat(a, b.drop_last());
    }
}

/// A text without `'\n'` has no newlines.
pub proof fn lemma_no_newline(s: Seq<char>)
    requires
        forall|j: int| 0 <= j < s.len() ==> s[j] != '\n',
    ensures
        newline_count(s) == 0,
    decreases s.len(),
{
    if s.len() > 0 {
        lemma_no_newline(s.drop_last());
    }
}

/// The counts of any text agree with each other: at least as many bytes as
/// characters, and one line per terminator plus one for a last unterminated
/// line.
pub proof fn lemma_stats_consistent(s: Seq<char>, stats: DocStats)
    requires
        stats.describes(s),
    ensures
        stats.bytes >= stats.chars,
        stats.lines == newline_count(s) + if s.len() > 0 && s.last() != '\n' {
            1nat
        } else {
            0nat
        },
{
    lemma_bytes_at_least_chars(s);
}

/// Counts the lines of `s` as `line_count_of` defines them.
pub fn count_lines(s: &str) -> (n: usize)
    ensures
        n as nat == line_count_of(s@),
{
    let total: usize = s.unicode_len();
    let mut count: usize = 0;
    let mut last: Option<char> = None;
    for c in it: s.chars()
        invariant
            it.seq() == s@,
            total as nat == s@.len(),
            count as nat == newline_count(s@.subrange(0, it.index() as int)),
            count <= it.index(),
            it.index() == 0 ==> last is None,
            it.index() > 0 ==> last == Some(s@[it.index() - 1]),
    {
        let ghost i = it.index();
        proof {
            let pre = s@.subrange(0, i + 1);
            assert(pre.drop_last() =~= s@.subrange(0, i));
        }
        if c == '\n' {
            count = count + 1;
        }
        last = Some(c);
    }
    proof {
        assert(s@.subrange(0, s@.len() as int) =~= s@);
        lemma_lines_at_most_chars(s@);
    }
    match last {
        Some(c) => {
            if c != '\n' {
                count + 1
            } else {
                count
            }
        },
        None => count,
    }
}

/// Line, character and byte counts of `s`.
pub fn stats_of(s: &str) -> (r: DocStats)
    ensures
        r.describes(s@),
        r.bytes >= r.chars,
        r.lines <= r.chars,
{
    let bytes: usize = s.as_bytes().len();
    let chars: usize = s.unicode_len();
    let lines: usize = count_lines(s);
    proof {
        lemma_bytes_at_least_chars(s@);
        lemma_lines_at_most_chars(s@);
    }
    DocStats { lines, chars, bytes }
}

} // verus!
