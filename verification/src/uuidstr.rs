//! The canonical textual form of a device identity. The identity itself is
//! a plain 128-bit value everywhere in the library; only its rendering is
//! delegated to the `uuid` crate.

use vstd::prelude::*;

verus! {

/// The hyphenated rendering of a 128-bit identity.
pub uninterp spec fn uuid_hyphenated(u: u128) -> Seq<char>;

/// Relies on `uuid::Uuid::from_u128` and its hyphenated formatter: the
/// rendering is a pure function of the 128-bit value and is always 36
/// characters long (32 hexadecimal digits in five hyphen-separated
/// groups).
#[verifier::external_body]
pub fn uuid_to_string(u: u128) -> (r: String)
    ensures
        r@ == uuid_hyphenated(u),
        r@.len() == 36,
{
    uuid::Uuid::from_u128(u).hyphenated().to_string()
}

} // verus!
