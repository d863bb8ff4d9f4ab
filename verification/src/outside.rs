//! Declarations of the outside types that envelope fields carry through
//! opaquely. Nothing in this crate reads into a value of either type.

use vstd::prelude::*;

verus! {

/// Relies on serde_json::Value, the arbitrary-JSON type. The `extra` field
/// of an envelope carries such values through; the engine never inspects
/// them.
#[verifier::external_type_specification]
#[verifier::external_body]
pub struct ExValue(serde_json::Value);

/// Relies on uuid::Uuid, a 128-bit universally unique identifier. The
/// `identities` field of a request carries such values through; the engine
/// never inspects them.
#[verifier::external_type_specification]
#[verifier::external_body]
pub struct ExUuid(uuid::Uuid);

} // verus!
