//! Predicates on byte strings, each with an executable counterpart.

use vstd::prelude::*;

verus! {

/// The lower-case form of an ASCII letter; every other byte is left alone.
pub open spec fn ascii_lower(b: u8) -> u8 {
    if 0x41 <= b <= 0x5a {
        (b + 0x20) as u8
    } else {
        b
    }
}

/// Two byte strings that differ at most in the case of their ASCII letters.
pub open spec fn eq_ignore_ascii_case(a: Seq<u8>, b: Seq<u8>) -> bool {
    &&& a.len() == b.len()
    &&& forall|i: int| 0 <= i < a.len() ==> ascii_lower(#[trigger] a[i]) == ascii_lower(b[i])
}

/// A byte that may stand in a header value read as text: printable ASCII or a tab.
pub open spec fn is_visible_ascii(b: u8) -> bool {
    32 <= b < 127 || b == 9
}

/// A header value that can be read as text: every byte is visible ASCII.
pub open spec fn is_text(value: Seq<u8>) -> bool {
    forall|i: int| 0 <= i < value.len() ==> is_visible_ascii(#[trigger] value[i])
}

/// The lower-case form of `b`.
pub fn to_ascii_lower(b: u8) -> (lower: u8)
    ensures
        lower == ascii_lower(b),
{
    if 0x41 <= b && b <= 0x5a {
        b + 0x20
    } else {
        b
    }
}

/// Whether `a` and `b` hold the same bytes.
pub fn bytes_eq(a: &[u8], b: &[u8]) -> (same: bool)
    ensures
        same == (a@ == b@),
{
    if a.len() != b.len() {
        return false;
    }
    let mut i: usize = 0;
    while i < a.len()
        invariant
            a@.len() == b@.len(),
            0 <= i <= a@.len(),
            a@.subrange(0, i as int) == b@.subrange(0, i as int),
        decreases a@.len() - i,
    {
        if a[i] != b[i] {
            return false;
        }
        proof {
            assert(a@.subrange(0, i + 1) == a@.subrange(0, i as int).push(a@[i as int]));
            assert(b@.subrange(0, i + 1) == b@.subrange(0, i as int).push(b@[i as int]));
        }
        i += 1;
    }
    proof {
        assert(a@ == a@.subrange(0, a@.len() as int));
        assert(b@ == b@.subrange(0, b@.len() as int));
    }
    true
}

/// Whether the first `len` bytes of `value` equal `word`, ASCII case aside.
pub fn prefix_eq_ignore_ascii_case(value: &[u8], word: &[u8]) -> (same: bool)
    ensures
        same == (value@.len() >= word@.len() && eq_ignore_ascii_case(
            value@.subrange(0, word@.len() as int),
            word@,
        )),
{
    if value.len() < word.len() {
        return false;
    }
    let ghost head = value@.subrange(0, word@.len() as int);
    let mut i: usize = 0;
    while i < word.len()
        invariant
            value@.len() >= word@.len(),
            head == value@.subrange(0, word@.len() as int),
            0 <= i <= word@.len(),
            forall|j: int| 0 <= j < i ==> ascii_lower(#[trigger] head[j]) == ascii_lower(word@[j]),
        decreases word@.len() - i,
    {
        if to_ascii_lower(value[i]) != to_ascii_lower(word[i]) {
            proof {
                assert(ascii_lower(head[i as int]) != ascii_lower(word@[i as int]));
            }
            return false;
        }
        i += 1;
    }
    true
}

/// Whether `value` can be read as text.
pub fn bytes_are_text(value: &[u8]) -> (text: bool)
    ensures
        text == is_text(value@),
{
    let mut i: usize = 0;
    while i < value.len()
        invariant
            0 <= i <= value@.len(),
            forall|j: int| 0 <= j < i ==> is_visible_ascii(#[trigger] value@[j]),
        decreases value@.len() - i,
    {
        let b: u8 = value[i];
        if !(32 <= b && b < 127 || b == 9) {
            return false;
        }
        i += 1;
    }
    true
}

} // verus!
