//! Server-side generation of item identifiers.
//!
//! An item id is a 128-bit random identifier rendered in its canonical
//! hyphenated string form. Randomness makes concurrent creations collision
//! free without any inter-request coordination; nothing here promises more
//! than the shape of the rendered string.

use vstd::prelude::*;

verus! {

/// A lowercase hexadecimal digit.
pub open spec fn is_lower_hex_digit(c: char) -> bool {
    ('0' <= c && c <= '9') || ('a' <= c && c <= 'f')
}

/// The canonical hyphenated rendering of a 128-bit identifier: 36 characters,
/// lowercase hexadecimal except for hyphens at positions 8, 13, 18 and 23.
pub open spec fn is_canonical_id(s: Seq<char>) -> bool {
    &&& s.len() == 36
    &&& forall|i: int|
        0 <= i < 36 ==> if i == 8 || i == 13 || i == 18 || i == 23 {
            s[i] == '-'
        } else {
            is_lower_hex_digit(s[i])
        }
}

/// Draws a fresh random identifier. Two calls may (and all but surely do)
/// return different strings; no determinism is claimed.
///
/// Relies on `uuid::Uuid::new_v4` and the `Display` impl of `uuid::Uuid`:
/// a version-4 identifier built from operating-system randomness, rendered
/// hyphenated as 36 characters of lowercase hex with hyphens at positions
/// 8, 13, 18 and 23.
#[verifier::external_body]
pub fn fresh_id() -> (r: String)
    ensures
        is_canonical_id(r@),
{
    uuid::Uuid::new_v4().to_string()
}

} // verus!
