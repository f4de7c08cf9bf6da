//! Engine and query identifiers, carried as opaque UUIDs.

use vstd::prelude::*;

verus! {

/// Declares uuid's `Uuid` so it can stand in signatures and fields; the
/// value is opaque and only carried through.
#[verifier::external_type_specification]
#[verifier::external_body]
pub struct ExUuid(uuid::Uuid);

/// Relies on uuid's `Uuid::new_v4`: a freshly generated random v4 UUID.
/// The value is random, so nothing is assumed of it.
#[verifier::external_body]
pub fn new_random_id() -> uuid::Uuid {
    uuid::Uuid::new_v4()
}

} // verus!
