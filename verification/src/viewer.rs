use vstd::prelude::*;

use crate::consensus::ViewerId;

verus! {

/// The bits of an identifier that say which kind of UUID it is: the four
/// version bits and the two variant bits.
pub const UUID_KIND_MASK: u128 = 0x0000_0000_0000_f000_c000_0000_0000_0000;

/// Those bits as a random (version 4) UUID of the standard variant has them.
pub const UUID_KIND_RANDOM: u128 = 0x0000_0000_0000_4000_8000_0000_0000_0000;

/// The identifier is a random (version 4) UUID.
pub open spec fn is_random_uuid(id: ViewerId) -> bool {
    id & UUID_KIND_MASK == UUID_KIND_RANDOM
}

/// Calls `uuid::Uuid::new_v4` and returns the 128 bits of the UUID, first byte
/// highest. The bits come from the operating system's random source, so
/// nothing is known of them but the version and the variant that `new_v4`
/// sets: two calls may give the same identifier, however unlikely. The call
/// panics when the operating system cannot supply random bytes.
#[verifier::external_body]
pub(crate) fn fresh_viewer_id() -> (id: ViewerId)
    ensures
        is_random_uuid(id),
{
    uuid::Uuid::new_v4().as_u128()
}

} // verus!
