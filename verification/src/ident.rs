//! Identifiers of rows: 128-bit values, of which zero marks a value that was never stored.
use vstd::prelude::*;

verus! {

/// The identifier of a value that was not stored yet.
pub const NIL: u128 = 0;

/// Whether `id` carries the version and variant bits of a random (version 4) UUID.
pub open spec fn is_random_id(id: u128) -> bool {
    id & 0x0000_0000_0000_f000_c000_0000_0000_0000u128
        == 0x0000_0000_0000_4000_8000_0000_0000_0000u128
}

/// A random identifier is never the nil identifier.
pub proof fn lemma_random_id_is_not_nil(id: u128)
    requires
        is_random_id(id),
    ensures
        id != NIL,
{
    assert(id & 0x0000_0000_0000_f000_c000_0000_0000_0000u128
        == 0x0000_0000_0000_4000_8000_0000_0000_0000u128 ==> id != 0u128) by (bit_vector);
}

/// Draws a fresh identifier with `uuid::Uuid::new_v4` and hands it out as its 128-bit value
/// (`Uuid::as_u128`).
///
/// The value is random, so two calls are unrelated. Whatever is drawn, `new_v4` sets the
/// version bits to 4 and the variant bits to `10`; nothing else is claimed. `new_v4` panics
/// when the operating system cannot supply random bytes.
#[verifier::external_body]
pub(crate) fn fresh_id() -> (id: u128)
    ensures
        is_random_id(id),
{
    uuid::Uuid::new_v4().as_u128()
}

} // verus!
