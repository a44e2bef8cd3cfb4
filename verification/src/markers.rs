//! The names of the eight shapes of what a resolver may return, and of the two
//! kinds of sequence that they give.
//!
//! A marker only ever stands in a type: it keys the impls of `RequestLayer`, so
//! that every shape has an impl of its own and none is taken for another.

use vstd::prelude::*;

verus! {

/// The kind of a sequence that is as long as a stream: a subscription.
pub enum StreamMarkerType {
    Subscription,
}

/// The kind of a sequence of exactly one frame: a query or a mutation.
pub enum FutureMarkerType {
    Request,
}

/// The shape of a plain value.
pub enum SerializeMarker {
    Value,
}

/// The shape of a fallible value.
pub enum ResultMarker {
    FallibleValue,
}

/// The shape of a future of a value.
pub enum FutureSerializeMarker {
    FutureValue,
}

/// The shape of a future of a fallible value.
pub enum FutureResultMarker {
    FutureFallibleValue,
}

/// The shape of a stream of values.
pub enum StreamMarker {
    Stream,
}

/// The shape of a fallible stream: a stream, or the error of a resolver that
/// has none to give.
pub enum ResultStreamMarker {
    FallibleStream,
}

/// The shape of a future of a stream.
pub enum FutureStreamMarker {
    FutureStream,
}

/// The shape of a future of a fallible stream.
pub enum FutureResultStreamMarker {
    FutureFallibleStream,
}

} // verus!
