use vstd::prelude::*;

verus! {

/// serde_json's `Value`, an arbitrary JSON document. The library carries it
/// through unread.
#[verifier::external_type_specification]
#[verifier::external_body]
pub struct ExValue(serde_json::Value);

} // verus!
