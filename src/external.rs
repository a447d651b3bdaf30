//! Outside types that the library carries through without looking inside.
use vstd::prelude::*;

verus! {

/// `uuid::Uuid`: the optional external identifier of an identity record.
#[verifier::external_type_specification]
#[verifier::external_body]
pub struct ExUuid(uuid::Uuid);

/// `serde_json::Value`: the opaque document attached to an identity record.
#[verifier::external_type_specification]
#[verifier::external_body]
pub struct ExJsonValue(serde_json::Value);

/// `diesel::result::Error`: a failure reported by the identity store.
#[verifier::external_type_specification]
#[verifier::external_body]
pub struct ExDieselError(diesel::result::Error);

} // verus!
