//! Frames: what a consumer gets from one pull.

use crate::wire::Serialized;
use vstd::prelude::*;

verus! {

/// The failure that a resolver reports of its own logic. This layer hands it on
/// as it came and never reads it.
#[derive(Debug, PartialEq, Eq)]
pub struct DomainError {
    /// The number by which the caller tells one kind of failure from another.
    pub code: i32,
    /// What went wrong, in words for the caller.
    pub message: String,
}

/// Why a sequence ended with an error. Either ends it: no frame follows.
#[derive(Debug)]
pub enum ExecError {
    /// A value had no wire format.
    SerializingResultErr(serde_json::Error),
    /// The resolver failed.
    ErrResolverError(DomainError),
}

/// One frame of a sequence: a serialized value, or the error that ends it.
pub type Outcome = Result<serde_json::Value, ExecError>;

/// The frame for what serializing a value gave: the value in wire format, or the
/// error that it has none.
pub open spec fn spec_value_frame(r: Serialized) -> Outcome {
    match r {
        Ok(value) => Ok(value),
        Err(cause) => Err(ExecError::SerializingResultErr(cause)),
    }
}

/// The frame for what a fallible resolver returned: its error comes first, and
/// only a value that it did return can fail to serialize.
pub open spec fn spec_result_frame(r: Result<Serialized, DomainError>) -> Outcome {
    match r {
        Ok(s) => spec_value_frame(s),
        Err(e) => Err(ExecError::ErrResolverError(e)),
    }
}

/// Turns what serializing a value gave into a frame.
#[verifier::when_used_as_spec(spec_value_frame)]
pub fn value_frame(r: Serialized) -> (frame: Outcome)
    ensures
        frame == spec_value_frame(r),
{
    match r {
        Ok(value) => Ok(value),
        Err(cause) => Err(ExecError::SerializingResultErr(cause)),
    }
}

/// Turns what a fallible resolver returned into a frame.
#[verifier::when_used_as_spec(spec_result_frame)]
pub fn result_frame(r: Result<Serialized, DomainError>) -> (frame: Outcome)
    ensures
        frame == spec_result_frame(r),
{
    match r {
        Ok(s) => value_frame(s),
        Err(e) => Err(ExecError::ErrResolverError(e)),
    }
}

} // verus!
