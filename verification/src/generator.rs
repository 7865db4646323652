//! Where time and identifier values come from.

use vstd::prelude::*;

verus! {

/// A source of the current time.
pub trait Clock: Send + Sync {
    fn unix_timestamp_nanos(&self) -> i128;
}

/// Produces identifier values.
///
/// Implementations must return UUIDv7. The trait cannot enforce it, so it is
/// stated here and met by [`UuidV7Generator`]. An implementation returning
/// random values still compiles and still works — and quietly forfeits the
/// sort locality the whole choice was made for.
pub trait IdGenerator: Send + Sync {
    fn next_u128(&self) -> u128;
}

/// Whether `v`, read as a UUID, is version 7 of the RFC 9562 variant: the
/// version nibble (bits 76 to 79) is 7 and the variant bits (62 and 63) are
/// `10`.
pub open spec fn is_uuid_v7(v: u128) -> bool {
    &&& (v >> 76u128) & 0xf == 7
    &&& (v >> 62u128) & 0x3 == 2
}

/// `uuid::Uuid::now_v7().as_u128()`: a fresh version 7 UUID from the current
/// time and random bits, as its big-endian value. Only the version and
/// variant fields are promised; the timestamp and random bits are not.
#[verifier::external_body]
fn now_v7_value() -> (r: u128)
    ensures
        is_uuid_v7(r),
{
    uuid::Uuid::now_v7().as_u128()
}

/// The canonical [`IdGenerator`]: UUIDv7, per RFC 9562.
#[derive(Clone, Copy, Debug, Default)]
pub struct UuidV7Generator;

impl IdGenerator for UuidV7Generator {
    fn next_u128(&self) -> (r: u128)
        ensures
            is_uuid_v7(r),
    {
        now_v7_value()
    }
}

} // verus!
