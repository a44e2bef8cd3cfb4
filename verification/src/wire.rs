//! The wire format: JSON values, and the error of a value that has none.

use vstd::prelude::*;

verus! {

/// `serde_json::Value`, a value in wire format. It is carried through unread:
/// nothing is claimed of what is inside.
#[verifier::external_type_specification]
#[verifier::external_body]
pub struct ExValue(serde_json::Value);

/// `serde_json::Error`, the reason why a value could not be brought into wire
/// format. It is carried through unread: nothing is claimed of what is inside.
#[verifier::external_type_specification]
#[verifier::external_body]
pub struct ExSerializeError(serde_json::Error);

/// What serializing one value gave: the value in wire format, or the reason why
/// it has none.
pub type Serialized = Result<serde_json::Value, serde_json::Error>;

} // verus!
