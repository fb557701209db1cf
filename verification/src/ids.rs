//! Opaque shape identities, backed by the `uuid` crate.
//!
//! A shape's identity is used only for equality; nothing is assumed about
//! the identifier values themselves.

use vstd::prelude::*;

verus! {

#[verifier::external_type_specification]
#[verifier::external_body]
pub struct ExUuid(uuid::Uuid);

/// Relies on `uuid::Uuid::new_v4`: a freshly generated random identifier.
/// The value depends on a random source, so nothing is assumed about it;
/// the call aborts the process only if the operating system's random source
/// fails, an environmental condition independent of any input.
#[verifier::external_body]
pub(crate) fn fresh_id() -> uuid::Uuid {
    uuid::Uuid::new_v4()
}

/// Relies on `uuid::Uuid`'s derived `PartialEq`: two identifiers compare
/// equal exactly when they hold the same 128-bit value.
#[verifier::external_body]
pub(crate) fn id_eq(a: &uuid::Uuid, b: &uuid::Uuid) -> (r: bool)
    ensures
        r == (a == b),
{
    a == b
}

} // verus!
