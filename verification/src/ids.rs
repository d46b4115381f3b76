//! Identifiers of entities: random (version 4) UUIDs held as 128-bit integers.
use vstd::prelude::*;

verus! {

/// The version nibble of a UUID held as a big-endian 128-bit integer.
pub open spec fn uuid_version(id: u128) -> u128 {
    (id >> 76u128) & 0xfu128
}

/// The two variant bits of a UUID held as a big-endian 128-bit integer.
pub open spec fn uuid_variant(id: u128) -> u128 {
    (id >> 62u128) & 0x3u128
}

/// A fresh random identifier.
///
/// Trusted: calls `uuid::Uuid::new_v4` and `Uuid::as_u128`. The source of
/// `new_v4` masks random bits so that the version nibble is 4 and the variant
/// bits are `10`; `as_u128` reads the 16 bytes big-endian. Which value comes
/// out depends on the random source and is not stated.
#[verifier::external_body]
pub(crate) fn new_id() -> (id: u128)
    ensures
        uuid_version(id) == 4,
        uuid_variant(id) == 2,
{
    uuid::Uuid::new_v4().as_u128()
}

} // verus!
