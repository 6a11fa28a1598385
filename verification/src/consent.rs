//! The operator's consent to trusting an unknown host: what is shown, what is
//! asked, and which answers count as a yes.

use vstd::prelude::*;
use vstd::string::StringExecFns;
use crate::text::{chars_of, spells};

verus! {

/// Whether `c` is white space in the sense of Unicode's `White_Space`
/// property.
pub open spec fn is_space(c: char) -> bool {
    let n = c as u32;
    ||| 0x09 <= n <= 0x0D
    ||| n == 0x20
    ||| n == 0x85
    ||| n == 0xA0
    ||| n == 0x1680
    ||| 0x2000 <= n <= 0x200A
    ||| n == 0x2028
    ||| n == 0x2029
    ||| n == 0x202F
    ||| n == 0x205F
    ||| n == 0x3000
}

/// `s` without its leading white space.
pub open spec fn trim_start(s: Seq<char>) -> Seq<char>
    decreases s.len(),
{
    if s.len() > 0 && is_space(s[0]) {
        trim_start(s.drop_first())
    } else {
        s
    }
}

/// `s` without its trailing white space.
pub open spec fn trim_end(s: Seq<char>) -> Seq<char>
    decreases s.len(),
{
    if s.len() > 0 && is_space(s.last()) {
        trim_end(s.drop_last())
    } else {
        s
    }
}

/// `s` without white space at either end.
pub open spec fn trimmed(s: Seq<char>) -> Seq<char> {
    trim_end(trim_start(s))
}

/// Whether a line typed by the operator is a yes. Apart from white space
/// around it, the line must be one of four tokens, letter for letter.
pub open spec fn affirmative(answer: Seq<char>) -> bool {
    let token = trimmed(answer);
    token == "yes"@ || token == "y"@ || token == "YES"@ || token == "Yes"@
}

/// The line that tells the operator that `destination` is missing from the
/// store kept at `store_path`.
pub open spec fn unknown_host_notice_text(destination: Seq<char>, store_path: Seq<char>) -> Seq<
    char,
> {
    "The host key for "@ + destination + " was not found in "@ + store_path + "."@
}

/// The line that shows a fingerprint to the operator.
pub open spec fn fingerprint_notice_text(fingerprint: Seq<char>) -> Seq<char> {
    "Fingerprint: "@ + fingerprint
}

/// The question put to the operator; the answer is typed on the same line.
pub open spec fn consent_question_text() -> Seq<char> {
    "Would you like to add it (yes/no)? "@
}

/// Composes the line that tells the operator that `destination` is not in the
/// store. `store_path` is the store's location as it is to be shown.
pub fn unknown_host_notice(destination: &str, store_path: &str) -> (line: String)
    ensures
        line@ == unknown_host_notice_text(destination@, store_path@),
{
    String::from_str("The host key for ").concat(destination).concat(" was not found in ").concat(
        store_path,
    ).concat(".")
}

/// Composes the line that shows `fingerprint` to the operator.
pub fn fingerprint_notice(fingerprint: &str) -> (line: String)
    ensures
        line@ == fingerprint_notice_text(fingerprint@),
{
    String::from_str("Fingerprint: ").concat(fingerprint)
}

/// The question whether to record the unknown host.
pub fn consent_question() -> (line: String)
    ensures
        line@ == consent_question_text(),
{
    String::from_str("Would you like to add it (yes/no)? ")
}

/// Whether `c` is white space.
pub fn char_is_space(c: char) -> (b: bool)
    ensures
        b == is_space(c),
{
    let n: u32 = c as u32;
    (0x09 <= n && n <= 0x0D) || n == 0x20 || n == 0x85 || n == 0xA0 || n == 0x1680 || (0x2000 <= n
        && n <= 0x200A) || n == 0x2028 || n == 0x2029 || n == 0x202F || n == 0x205F || n == 0x3000
}

/// Cutting `k` white-space characters off the front does not change what
/// `trim_start` yields.
proof fn lemma_trim_start_skips(s: Seq<char>, k: int)
    requires
        0 <= k <= s.len(),
        forall|j: int| 0 <= j < k ==> is_space(s[j]),
    ensures
        trim_start(s) == trim_start(s.subrange(k, s.len() as int)),
    decreases k,
{
    if k == 0 {
        assert(s.subrange(0, s.len() as int) =~= s);
    } else {
        lemma_trim_start_skips(s.drop_first(), k - 1);
        assert(s.drop_first().subrange(k - 1, s.len() - 1) =~= s.subrange(k, s.len() as int));
    }
}

/// Cutting white-space characters off the back, down to length `k`, does not
/// change what `trim_end` yields.
proof fn lemma_trim_end_skips(s: Seq<char>, k: int)
    requires
        0 <= k <= s.len(),
        forall|j: int| k <= j < s.len() ==> is_space(s[j]),
    ensures
        trim_end(s) == trim_end(s.subrange(0, k)),
    decreases s.len() - k,
{
    if k == s.len() {
        assert(s.subrange(0, k) =~= s);
    } else {
        lemma_trim_end_skips(s.drop_last(), k);
        assert(s.drop_last().subrange(0, k) =~= s.subrange(0, k));
    }
}

/// Whether the operator's answer to the question is a yes.
pub fn is_affirmative(answer: &str) -> (b: bool)
    ensures
        b == affirmative(answer@),
{
    let chars = chars_of(answer);
    let mut start: usize = 0;
    while start < chars.len() && char_is_space(chars[start])
        invariant
            start <= chars.len(),
            forall|j: int| 0 <= j < start ==> is_space(chars@[j]),
        decreases chars.len() - start,
    {
        start += 1;
    }
    let mut end: usize = chars.len();
    while end > start && char_is_space(chars[end - 1])
        invariant
            start <= end <= chars.len(),
            forall|j: int| end <= j < chars.len() ==> is_space(chars@[j]),
        decreases end,
    {
        end -= 1;
    }
    proof {
        let s = chars@;
        let rest = s.subrange(start as int, s.len() as int);
        let core = s.subrange(start as int, end as int);
        lemma_trim_start_skips(s, start as int);
        assert(trim_start(rest) == rest);
        lemma_trim_end_skips(rest, end - start);
        assert(rest.subrange(0, end - start) =~= core);
        assert(trim_end(core) == core);
        assert(trimmed(s) == core);
    }
    spells(&chars, start, end, "yes") || spells(&chars, start, end, "y") || spells(
        &chars,
        start,
        end,
        "YES",
    ) || spells(&chars, start, end, "Yes")
}

} // verus!
