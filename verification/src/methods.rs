//! The list of authentication methods that a remote host offers: method
//! names separated by commas.

use vstd::prelude::*;
use crate::text::{chars_of, spells};

verus! {

/// Whether the characters of `list` from `a` up to `b` are one field of the
/// list: a run without a comma that reaches from the start of the list or a
/// comma to the next comma or the end of the list.
pub open spec fn is_field(list: Seq<char>, a: int, b: int) -> bool {
    &&& 0 <= a <= b <= list.len()
    &&& a == 0 || list[a - 1] == ','
    &&& b == list.len() || list[b] == ','
    &&& forall|k: int| a <= k < b ==> list[k] != ','
}

/// Whether `method` is one of the names in `list`.
pub open spec fn method_offered(list: Seq<char>, method: Seq<char>) -> bool {
    exists|a: int, b: int| #[trigger] is_field(list, a, b) && list.subrange(a, b) == method
}

/// Tells whether the remote host offers `method`, given the list it sent.
pub fn offers(list: &str, method: &str) -> (found: bool)
    ensures
        found == method_offered(list@, method@),
{
    let chars = chars_of(list);
    let mut start: usize = 0;
    let mut i: usize = 0;
    while i < chars.len()
        invariant
            start <= i <= chars.len(),
            chars@ == list@,
            start == 0 || chars@[start - 1] == ',',
            forall|k: int| start <= k < i ==> chars@[k] != ',',
            forall|a: int, b: int| #[trigger]
                is_field(chars@, a, b) && b < i ==> chars@.subrange(a, b) != method@,
        decreases chars.len() - i,
    {
        if chars[i] == ',' {
            if spells(&chars, start, i, method) {
                assert(is_field(chars@, start as int, i as int));
                return true;
            }
            assert forall|a: int, b: int| #[trigger]
                is_field(chars@, a, b) && b < i + 1 implies chars@.subrange(a, b) != method@ by {
                if b == i {
                    assert(a == start) by {
                        if a < start {
                            assert(chars@[start - 1] == ',');
                        }
                        if a > start {
                            assert(chars@[a - 1] == ',');
                        }
                    }
                }
            }
            start = i + 1;
        }
        i += 1;
    }
    let found = spells(&chars, start, i, method);
    proof {
        if found {
            assert(is_field(chars@, start as int, i as int));
        } else {
            assert forall|a: int, b: int| #[trigger] is_field(chars@, a, b) implies chars@.subrange(
                a,
                b,
            ) != method@ by {
                if b == i {
                    assert(a == start) by {
                        if a < start {
                            assert(chars@[start - 1] == ',');
                        }
                        if a > start {
                            assert(chars@[a - 1] == ',');
                        }
                    }
                }
            }
        }
    }
    found
}

} // verus!
