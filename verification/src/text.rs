//! Comparing caller-supplied names against the fixed ASCII names of the library.

use vstd::prelude::*;

verus! {

/// Whether two characters are the same, or the same ASCII letter in different case.
pub open spec fn same_letter(a: char, b: char) -> bool {
    ||| a == b
    ||| ('A' <= a <= 'Z' && b as int == a as int + 32)
    ||| ('A' <= b <= 'Z' && a as int == b as int + 32)
}

/// Whether `s` spells `name` when ASCII case is ignored.
pub open spec fn spells(s: Seq<char>, name: Seq<char>) -> bool {
    &&& s.len() == name.len()
    &&& forall|i: int| 0 <= i < s.len() ==> same_letter(#[trigger] s[i], name[i])
}

/// Compares two characters, ignoring ASCII case.
pub fn chars_match(a: char, b: char) -> (r: bool)
    ensures
        r == same_letter(a, b),
{
    a == b || ('A' <= a && a <= 'Z' && b as u32 == a as u32 + 32) || ('A' <= b && b <= 'Z'
        && a as u32 == b as u32 + 32)
}

/// Compares a string against a name, ignoring ASCII case.
pub fn eq_ignore_ascii_case(s: &str, name: &str) -> (r: bool)
    ensures
        r == spells(s@, name@),
{
    let n: usize = s.unicode_len();
    if n != name.unicode_len() {
        return false;
    }
    let mut i: usize = 0;
    while i < n
        invariant
            i <= n,
            n == s@.len(),
            n == name@.len(),
            forall|j: int| 0 <= j < i ==> same_letter(#[trigger] s@[j], name@[j]),
        decreases n - i,
    {
        if !chars_match(s.get_char(i), name.get_char(i)) {
            return false;
        }
        i += 1;
    }
    true
}

/// Tells whether `s` is `head` followed by `tail`, character for character.
pub fn eq_concat(s: &str, head: &str, tail: &str) -> (r: bool)
    ensures
        r == (s@ == head@ + tail@),
{
    let h: usize = head.unicode_len();
    let t: usize = tail.unicode_len();
    let n: usize = s.unicode_len();
    if n < h || n - h != t {
        return false;
    }
    let mut i: usize = 0;
    while i < n
        invariant
            i <= n,
            n == s@.len(),
            h == head@.len(),
            t == tail@.len(),
            n == h + t,
            forall|j: int| 0 <= j < i ==> s@[j] == (head@ + tail@)[j],
        decreases n - i,
    {
        let expected = if i < h {
            head.get_char(i)
        } else {
            tail.get_char(i - h)
        };
        if s.get_char(i) != expected {
            return false;
        }
        i += 1;
    }
    assert(s@ =~= head@ + tail@);
    true
}

} // verus!
