//! The execution layer of a typed RPC framework.
//!
//! A resolver may answer with a value, a fallible value, a future of either, a
//! stream, a fallible stream, or a future of a stream or of a fallible stream.
//! Each of these eight shapes is turned into one kind of lazy sequence: frames
//! with serialized values, then at most one frame with an error, then the end.
//!
//! The adapters here hold the future or the stream, but they poll nothing. A
//! driver serves each pull of the consumer in two steps. `poll_next` starts the
//! pull: the adapter answers at once, or it asks for a poll of what it holds.
//! The driver polls the handle that `future_mut` or `stream_mut` hands out and
//! reports what the poll gave; `poll`, `resolved` or `forward` takes that up
//! and ends the pull. Every decision is taken by the adapter: the driver only
//! polls what it is asked to poll.
//!
//! Values reach the adapters in wire format, as `serde_json` has serialized
//! them. An adapter decides what becomes of each: a frame, or the error that
//! ends the sequence.
//!
//! Each adapter has a model of its states and steps, and the sequences of a
//! whole run are stated and proved over that model.

pub mod future_map_stream;
pub mod future_value;
pub mod layer;
pub mod map_stream;
pub mod markers;
pub mod once;
pub mod outcome;
pub mod poll;
pub mod wire;

pub use future_map_stream::{AdapterPhase, FutureMapStream, FuturePhase};
pub use future_value::{FutureSerializeFuture, FutureSerializeResultFuture, ValuePhase};
pub use layer::{RequestLayer, SealedRequestLayer};
pub use map_stream::{MapStream, StreamPhase};
pub use markers::{
    FutureMarkerType, FutureResultMarker, FutureResultStreamMarker, FutureSerializeMarker,
    FutureStreamMarker, ResultMarker, ResultStreamMarker, SerializeMarker, StreamMarker,
    StreamMarkerType,
};
pub use once::Once;
pub use outcome::{result_frame, value_frame, DomainError, ExecError, Outcome};
pub use poll::{Polled, Step};
pub use wire::Serialized;
