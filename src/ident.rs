//! Identifiers: UUIDs held as their 128-bit big-endian value.

use vstd::prelude::*;

verus! {

/// Bits of a UUID that hold its version (four bits) and the top two bits of
/// its variant.
pub const VERSION_VARIANT_MASK: u128 = 0xF000_C000_0000_0000_0000;

/// Those bits in a random (version 4, RFC 9562 variant) UUID.
pub const RANDOM_VERSION_VARIANT: u128 = 0x4000_8000_0000_0000_0000;

/// `id` carries the version and variant of a randomly generated UUID.
pub open spec fn is_random_id(id: u128) -> bool {
    id & VERSION_VARIANT_MASK == RANDOM_VERSION_VARIANT
}

/// Relies on uuid's `Uuid::new_v4` and `Uuid::as_u128`: a fresh random UUID,
/// whose version nibble `new_v4` sets to 4 and whose variant bits it sets
/// to `10`.
#[verifier::external_body]
pub(crate) fn random_id() -> (r: u128)
    ensures
        is_random_id(r),
{
    uuid::Uuid::new_v4().as_u128()
}

} // verus!
