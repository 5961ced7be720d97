//! Username validation: a name is accepted when it consists of 1 to 16
//! word characters (ASCII letters, digits, or underscore).

use vstd::prelude::*;

verus! {

/// A word character: an ASCII letter, an ASCII digit, or `_`.
pub open spec fn is_word_char(c: char) -> bool {
    ('a' <= c && c <= 'z') || ('A' <= c && c <= 'Z') || ('0' <= c && c <= '9') || c == '_'
}

/// A valid username: 1 to 16 characters, all of them word characters.
pub open spec fn valid_username(s: Seq<char>) -> bool {
    1 <= s.len() <= 16 && (forall|i: int| 0 <= i < s.len() ==> is_word_char(s[i]))
}

/// Decides whether a requested name is a valid username. Requests whose
/// name fails this test are rejected before any upstream service is called.
pub fn validate_username(s: &str) -> (r: bool)
    ensures
        r == valid_username(s@),
{
    let len = s.unicode_len();
    if len < 1 || len > 16 {
        return false;
    }
    let mut i: usize = 0;
    while i < len
        invariant
            len == s@.len(),
            1 <= len <= 16,
            i <= len,
            forall|j: int| 0 <= j < i ==> is_word_char(s@[j]),
        decreases len - i,
    {
        let c = s.get_char(i);
        let word = ('a' <= c && c <= 'z') || ('A' <= c && c <= 'Z') || ('0' <= c && c <= '9')
            || c == '_';
        if !word {
            return false;
        }
        i = i + 1;
    }
    true
}

} // verus!
