//! Trimming a character off both ends of a string.

use vstd::prelude::*;
use vstd::string::*;

verus! {

/// `s` without the run of `c` that it starts with.
pub open spec fn trim_start(s: Seq<char>, c: char) -> Seq<char>
    decreases s.len(),
{
    if s.len() > 0 && s.first() == c {
        trim_start(s.drop_first(), c)
    } else {
        s
    }
}

/// `s` without the run of `c` that it ends with.
pub open spec fn trim_end(s: Seq<char>, c: char) -> Seq<char>
    decreases s.len(),
{
    if s.len() > 0 && s.last() == c {
        trim_end(s.drop_last(), c)
    } else {
        s
    }
}

/// `s` without the runs of `c` at either end.
pub open spec fn trimmed(s: Seq<char>, c: char) -> Seq<char> {
    trim_end(trim_start(s, c), c)
}

/// Where the first `i` characters of `s` are `c` and the next one is not,
/// trimming the start leaves what follows them.
proof fn lemma_trim_start(s: Seq<char>, c: char, i: int)
    requires
        0 <= i <= s.len(),
        forall|k: int| 0 <= k < i ==> s[k] == c,
        i < s.len() ==> s[i] != c,
    ensures
        trim_start(s, c) == s.subrange(i, s.len() as int),
    decreases i,
{
    if i > 0 {
        lemma_trim_start(s.drop_first(), c, i - 1);
    }
}

/// Where the characters of `s` from `j` on are `c` and the one before is
/// not, trimming the end leaves what precedes them.
proof fn lemma_trim_end(s: Seq<char>, c: char, j: int)
    requires
        0 <= j <= s.len(),
        forall|k: int| j <= k < s.len() ==> s[k] == c,
        0 < j ==> s[j - 1] != c,
    ensures
        trim_end(s, c) == s.subrange(0, j),
    decreases s.len() - j,
{
    if j < s.len() {
        lemma_trim_end(s.drop_last(), c, j);
    }
}

/// `s` without the runs of `c` at either end.
pub fn trim_char(s: &str, c: char) -> (kept: String)
    ensures
        kept@ == trimmed(s@, c),
{
    let n = s.unicode_len();
    let mut start: usize = 0;
    while start < n && s.get_char(start) == c
        invariant
            start <= n,
            n == s@.len(),
            forall|k: int| 0 <= k < start ==> s@[k] == c,
        decreases n - start,
    {
        start = start + 1;
    }
    let mut end: usize = n;
    while end > start && s.get_char(end - 1) == c
        invariant
            start <= end <= n,
            n == s@.len(),
            forall|k: int| end <= k < n ==> s@[k] == c,
        decreases end,
    {
        end = end - 1;
    }
    proof {
        lemma_trim_start(s@, c, start as int);
        lemma_trim_end(s@.subrange(start as int, n as int), c, end - start);
    }
    String::from_str(s.substring_char(start, end))
}

} // verus!
