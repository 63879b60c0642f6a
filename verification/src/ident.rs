//! Where the 128-bit identifiers come from.

use vstd::prelude::*;

verus! {

/// The six bits that are fixed in every random (version 4) identifier: the
/// version nibble reads 4 and the two variant bits read `10`.
pub open spec fn is_random_v4(bits: u128) -> bool {
    bits & 0x0000_0000_0000_f000_c000_0000_0000_0000u128
        == 0x0000_0000_0000_4000_8000_0000_0000_0000u128
}

/// `uuid::Uuid::new_v4`, read as an integer through `Uuid::as_u128`.
///
/// Believed, not proved: the version and variant bits of what the call
/// returns are those of a version 4 identifier. The other 122 bits come from
/// the operating system's random source, so nothing is said of them, and two
/// calls are not taken to agree or to differ. Should the operating system
/// have no random bytes to give, the call panics.
#[verifier::external_body]
pub(crate) fn fresh_v4_bits() -> (bits: u128)
    ensures
        is_random_v4(bits),
{
    uuid::Uuid::new_v4().as_u128()
}

} // verus!
