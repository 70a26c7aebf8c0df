//! NUL-byte validation of the strings handed to the display server.
//!
//! A native string cannot hold an embedded NUL, so every font specification
//! and every query text is screened before any effect touching the server is
//! requested.

use vstd::prelude::*;
use vstd::string::StrSliceExecFns;

verus! {

/// The string holds an embedded NUL character. In UTF-8 a zero byte occurs
/// exactly where the character `'\0'` does, so screening the characters
/// screens the encoded bytes.
pub open spec fn has_nul(s: Seq<char>) -> bool {
    exists|i: int| 0 <= i < s.len() && s[i] == '\0'
}

/// Decides whether `s` holds an embedded NUL character.
pub fn str_has_nul(s: &str) -> (b: bool)
    ensures
        b == has_nul(s@),
{
    let n: usize = s.unicode_len();
    let mut i: usize = 0;
    while i < n
        invariant
            n == s@.len(),
            i <= n,
            forall|j: int| 0 <= j < i ==> s@[j] != '\0',
        decreases n - i,
    {
        if s.get_char(i) == '\0' {
            proof {
                assert(s@[i as int] == '\0');
            }
            return true;
        }
        i += 1;
    }
    false
}

} // verus!
