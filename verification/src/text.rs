//! Character-level helpers shared by the parsers of this crate.

use vstd::prelude::*;

verus! {

/// The characters of `s`, in order, as a vector that can be indexed in
/// constant time.
pub(crate) fn chars_of(s: &str) -> (v: Vec<char>)
    ensures
        v@ == s@,
{
    let mut v: Vec<char> = Vec::new();
    for c in it: s.chars()
        invariant
            v@ == it.seq().take(it.index()),
            it.seq() == s@,
    {
        v.push(c);
    }
    v
}

/// Whether `c` occurs in `s`.
pub(crate) fn has_char(s: &str, c: char) -> (found: bool)
    ensures
        found == s@.contains(c),
{
    let chars = chars_of(s);
    let mut i: usize = 0;
    while i < chars.len()
        invariant
            i <= chars.len(),
            chars@ == s@,
            forall|j: int| 0 <= j < i ==> chars@[j] != c,
        decreases chars.len() - i,
    {
        if chars[i] == c {
            return true;
        }
        i += 1;
    }
    false
}

/// Whether the characters of `chars` from `start` up to `end` spell `token`.
pub(crate) fn spells(chars: &Vec<char>, start: usize, end: usize, token: &str) -> (b: bool)
    requires
        start <= end <= chars.len(),
    ensures
        b == (chars@.subrange(start as int, end as int) == token@),
{
    let wanted = chars_of(token);
    if wanted.len() != end - start {
        return false;
    }
    let mut i: usize = 0;
    while i < wanted.len()
        invariant
            start <= end <= chars.len(),
            wanted.len() == end - start,
            i <= wanted.len(),
            wanted@ == token@,
            forall|j: int| 0 <= j < i ==> chars@[start + j] == wanted@[j],
        decreases wanted.len() - i,
    {
        if chars[start + i] != wanted[i] {
            assert(chars@.subrange(start as int, end as int)[i as int] != token@[i as int]);
            return false;
        }
        i += 1;
    }
    assert(chars@.subrange(start as int, end as int) =~= token@);
    true
}

} // verus!
