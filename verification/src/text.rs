//! Small character and string helpers shared by the playlist rules and the
//! status renderer.

use vstd::prelude::*;

verus! {

/// ASCII-lowercased character: letters `A` to `Z` map to `a` to `z`, every
/// other character stays itself.
pub open spec fn ascii_lower_char(c: char) -> char {
    if 'A' <= c && c <= 'Z' {
        ((c as u8) + 32) as char
    } else {
        c
    }
}

/// ASCII-uppercased character: letters `a` to `z` map to `A` to `Z`, every
/// other character stays itself.
pub open spec fn ascii_upper_char(c: char) -> char {
    if 'a' <= c && c <= 'z' {
        ((c as u8) - 32) as char
    } else {
        c
    }
}

/// The sequence with every character ASCII-lowercased.
pub open spec fn seq_ascii_lower(s: Seq<char>) -> Seq<char> {
    Seq::new(s.len(), |i: int| ascii_lower_char(s[i]))
}

/// The sequence with every character ASCII-uppercased.
pub open spec fn seq_ascii_upper(s: Seq<char>) -> Seq<char> {
    Seq::new(s.len(), |i: int| ascii_upper_char(s[i]))
}

/// ASCII-lowercases one character.
pub fn to_ascii_lower(c: char) -> (r: char)
    ensures
        r == ascii_lower_char(c),
{
    if 'A' <= c && c <= 'Z' {
        ((c as u8) + 32) as char
    } else {
        c
    }
}

/// ASCII-uppercases one character.
pub fn to_ascii_upper(c: char) -> (r: char)
    ensures
        r == ascii_upper_char(c),
{
    if 'a' <= c && c <= 'z' {
        ((c as u8) - 32) as char
    } else {
        c
    }
}

/// Whether two string slices hold the same characters up to ASCII case.
pub fn str_eq_ignore_ascii_case(a: &str, b: &str) -> (r: bool)
    ensures
        r == (seq_ascii_lower(a@) == seq_ascii_lower(b@)),
{
    let a_len = a.unicode_len();
    let b_len = b.unicode_len();
    if a_len != b_len {
        proof {
            assert(seq_ascii_lower(a@).len() != seq_ascii_lower(b@).len());
        }
        return false;
    }
    let mut i: usize = 0;
    while i < a_len
        invariant
            i <= a_len,
            a_len == a@.len(),
            a_len == b@.len(),
            forall|j: int| 0 <= j < i ==> ascii_lower_char(a@[j]) == ascii_lower_char(b@[j]),
        decreases a_len - i,
    {
        if to_ascii_lower(a.get_char(i)) != to_ascii_lower(b.get_char(i)) {
            proof {
                assert(seq_ascii_lower(a@)[i as int] != seq_ascii_lower(b@)[i as int]);
            }
            return false;
        }
        i = i + 1;
    }
    proof {
        assert(seq_ascii_lower(a@) =~= seq_ascii_lower(b@));
    }
    true
}

/// Relies on `String::from_iter` over the vector's characters: the string
/// holding exactly the given characters in order.
#[verifier::external_body]
pub fn string_from_chars(chars: &Vec<char>) -> (r: String)
    ensures
        r@ == chars@,
{
    chars.iter().collect()
}

/// The ASCII-uppercased copy of a string slice.
pub fn to_ascii_upper_string(s: &str) -> (r: String)
    ensures
        r@ == seq_ascii_upper(s@),
{
    let len = s.unicode_len();
    let mut chars: Vec<char> = Vec::new();
    let mut i: usize = 0;
    while i < len
        invariant
            i <= len,
            len == s@.len(),
            chars@ == seq_ascii_upper(s@).take(i as int),
        decreases len - i,
    {
        let c = to_ascii_upper(s.get_char(i));
        chars.push(c);
        proof {
            assert(chars@ =~= seq_ascii_upper(s@).take(i + 1));
        }
        i = i + 1;
    }
    proof {
        assert(chars@ =~= seq_ascii_upper(s@));
    }
    string_from_chars(&chars)
}

} // verus!
