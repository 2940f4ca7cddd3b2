//! Identities for entities.

use vstd::prelude::*;

verus! {

/// A new random identity.
///
/// Calls `uuid::Uuid::new_v4` and packs the bytes into an integer with
/// `Uuid::as_u128`. The value comes from the system's random source, so
/// nothing is promised of it.
#[verifier::external_body]
pub(crate) fn fresh_uuid() -> (id: u128) {
    uuid::Uuid::new_v4().as_u128()
}

} // verus!
