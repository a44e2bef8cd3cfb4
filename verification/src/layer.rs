//! From the shape of what a resolver returns to the adapter for it.
//!
//! The shape is a property of the type alone. Each impl below is keyed by the
//! marker of one shape, so that a type takes the adapter of the shape that it
//! was registered under and of no other.

use crate::future_map_stream::{
    lemma_failed_future_gives_its_error_only, lemma_resolved_future_gives_every_item,
    FutureMapStream, FuturePhase, FutureTrace,
};
use crate::future_value::{
    lemma_future_gives_one_frame, FutureSerializeFuture, FutureSerializeResultFuture, ValuePhase,
    ValueTrace,
};
use crate::map_stream::{
    lemma_every_item_is_forwarded, lemma_first_failure_ends_the_sequence,
    lemma_primed_gives_its_error_only, MapStream, StreamPhase, Trace,
};
use crate::markers::{
    FutureMarkerType, FutureResultMarker, FutureResultStreamMarker, FutureSerializeMarker,
    FutureStreamMarker, ResultMarker, ResultStreamMarker, SerializeMarker, StreamMarker,
    StreamMarkerType,
};
use crate::once::Once;
use crate::outcome::{result_frame, value_frame, DomainError, ExecError};
use crate::wire::Serialized;
use std::future::Future;
use vstd::prelude::*;

verus! {

/// What a resolver of the shape `TMarker` may return.
pub trait RequestLayer<TMarker>: SealedRequestLayer<TMarker> {

}

impl<TMarker, T: SealedRequestLayer<TMarker>> RequestLayer<TMarker> for T {

}

/// The adapter for what a resolver of the shape `TMarker` returned.
pub trait SealedRequestLayer<TMarker>: Sized {
    /// The adapter, which gives the sequence of frames.
    type Stream;

    /// Whether the sequence is one frame, `FutureMarkerType`, or as long as a
    /// stream, `StreamMarkerType`.
    type Type;

    /// Whether `stream` is the adapter for `self` as it stands before the
    /// first pull.
    spec fn starts(self, stream: Self::Stream) -> bool;

    /// Hands what the resolver returned to its adapter. Nothing is polled
    /// before the first pull.
    fn exec(self) -> (stream: Self::Stream)
        ensures
            self.starts(stream),
    ;
}

/// A value, as it was serialized: the sequence is its frame.
impl SealedRequestLayer<SerializeMarker> for Serialized {
    type Stream = Once;

    type Type = FutureMarkerType;

    open spec fn starts(self, stream: Once) -> bool {
        stream@ == Some(value_frame(self))
    }

    fn exec(self) -> (stream: Once) {
        Once::new(value_frame(self))
    }
}

/// A fallible value: the sequence is the error of the resolver, or the frame
/// of the value as it was serialized.
impl SealedRequestLayer<ResultMarker> for Result<Serialized, DomainError> {
    type Stream = Once;

    type Type = FutureMarkerType;

    open spec fn starts(self, stream: Once) -> bool {
        stream@ == Some(result_frame(self))
    }

    fn exec(self) -> (stream: Once) {
        Once::new(result_frame(self))
    }
}

/// A future of a value: the adapter awaits it.
impl<TFut: Future<Output = Serialized>> SealedRequestLayer<FutureSerializeMarker> for TFut {
    type Stream = FutureSerializeFuture<TFut>;

    type Type = FutureMarkerType;

    open spec fn starts(self, stream: FutureSerializeFuture<TFut>) -> bool {
        stream@ == ValuePhase::AwaitingFuture(self)
    }

    fn exec(self) -> (stream: FutureSerializeFuture<TFut>) {
        FutureSerializeFuture::new(self)
    }
}

/// A future of a fallible value: the adapter awaits it.
impl<TFut: Future<Output = Result<Serialized, DomainError>>> SealedRequestLayer<
    FutureResultMarker,
> for TFut {
    type Stream = FutureSerializeResultFuture<TFut>;

    type Type = FutureMarkerType;

    open spec fn starts(self, stream: FutureSerializeResultFuture<TFut>) -> bool {
        stream@ == ValuePhase::AwaitingFuture(self)
    }

    fn exec(self) -> (stream: FutureSerializeResultFuture<TFut>) {
        FutureSerializeResultFuture::new(self)
    }
}

/// A stream: the adapter streams from the first pull on.
impl<TStream> SealedRequestLayer<StreamMarker> for TStream {
    type Stream = MapStream<TStream>;

    type Type = StreamMarkerType;

    open spec fn starts(self, stream: MapStream<TStream>) -> bool {
        stream@ == StreamPhase::Streaming(self)
    }

    fn exec(self) -> (stream: MapStream<TStream>) {
        MapStream::new(self)
    }
}

/// A fallible stream: the adapter streams, or it is primed with the error of
/// the resolver and holds no stream at all.
impl<TStream> SealedRequestLayer<ResultStreamMarker> for Result<TStream, DomainError> {
    type Stream = MapStream<TStream>;

    type Type = StreamMarkerType;

    open spec fn starts(self, stream: MapStream<TStream>) -> bool {
        stream@ == match self {
            Ok(live) => StreamPhase::Streaming(live),
            Err(error) => StreamPhase::Primed(error),
        }
    }

    fn exec(self) -> (stream: MapStream<TStream>) {
        match self {
            Ok(live) => MapStream::new(live),
            Err(error) => MapStream::failed(error),
        }
    }
}

/// A future of a stream: the adapter awaits it.
impl<TFut: Future<Output = TStream>, TStream> SealedRequestLayer<FutureStreamMarker> for TFut {
    type Stream = FutureMapStream<TFut, TStream>;

    type Type = StreamMarkerType;

    open spec fn starts(self, stream: FutureMapStream<TFut, TStream>) -> bool {
        stream@ == FuturePhase::<TFut, TStream>::AwaitingFuture(self)
    }

    fn exec(self) -> (stream: FutureMapStream<TFut, TStream>) {
        FutureMapStream::new(self)
    }
}

/// A future of a fallible stream: the adapter awaits it.
impl<TFut: Future<Output = Result<TStream, DomainError>>, TStream> SealedRequestLayer<
    FutureResultStreamMarker,
> for TFut {
    type Stream = FutureMapStream<TFut, TStream>;

    type Type = StreamMarkerType;

    open spec fn starts(self, stream: FutureMapStream<TFut, TStream>) -> bool {
        stream@ == FuturePhase::<TFut, TStream>::AwaitingFuture(self)
    }

    fn exec(self) -> (stream: FutureMapStream<TFut, TStream>) {
        FutureMapStream::new(self)
    }
}

/// A plain value gives exactly one frame: the value in wire format, or the
/// error that it has none.
pub proof fn lemma_value_gives_one_frame(value: Serialized, stream: Once)
    requires
        SealedRequestLayer::<SerializeMarker>::starts(value, stream),
    ensures
        stream.frames() == seq![value_frame(value)],
        value is Ok ==> stream.frames() == seq![Ok::<serde_json::Value, ExecError>(value->Ok_0)],
        value is Err ==> stream.frames() == seq![
            Err::<serde_json::Value, ExecError>(ExecError::SerializingResultErr(value->Err_0)),
        ],
{
}

/// A fallible value gives exactly one frame. The error of the resolver is
/// that frame as it stands; a value gives the frame of a plain value.
pub proof fn lemma_fallible_value_gives_one_frame(
    returned: Result<Serialized, DomainError>,
    stream: Once,
)
    requires
        SealedRequestLayer::<ResultMarker>::starts(returned, stream),
    ensures
        stream.frames() == seq![result_frame(returned)],
        returned is Err ==> stream.frames() == seq![
            Err::<serde_json::Value, ExecError>(ExecError::ErrResolverError(returned->Err_0)),
        ],
        returned is Ok ==> stream.frames() == seq![value_frame(returned->Ok_0)],
{
}

/// A future of a value gives exactly one frame when it has resolved: the value
/// in wire format, or the error that it has none.
pub proof fn lemma_future_value_gives_one_frame<TFut>(
    future: TFut,
    stream: FutureSerializeFuture<TFut>,
    value: Serialized,
) where TFut: Future<Output = Serialized>
    requires
        SealedRequestLayer::<FutureSerializeMarker>::starts(future, stream),
    ensures
        stream@.run(value_frame(value)) == (ValueTrace {
            frames: seq![value_frame(value)],
            polls: 1,
        }),
{
    lemma_future_gives_one_frame(future, value_frame(value));
}

/// A future of a fallible value gives exactly one frame when it has resolved:
/// the error of the resolver as it stands, or the frame of the value.
pub proof fn lemma_future_fallible_value_gives_one_frame<TFut>(
    future: TFut,
    stream: FutureSerializeResultFuture<TFut>,
    returned: Result<Serialized, DomainError>,
) where TFut: Future<Output = Result<Serialized, DomainError>>
    requires
        SealedRequestLayer::<FutureResultMarker>::starts(future, stream),
    ensures
        stream@.run(result_frame(returned)) == (ValueTrace {
            frames: seq![result_frame(returned)],
            polls: 1,
        }),
        returned is Err ==> stream@.run(result_frame(returned)).frames == seq![
            Err::<serde_json::Value, ExecError>(ExecError::ErrResolverError(returned->Err_0)),
        ],
{
    lemma_future_gives_one_frame(future, result_frame(returned));
}

/// A stream whose items all have a wire format gives those items, in the
/// order of the stream, and then ends.
pub proof fn lemma_stream_gives_its_items<TStream>(
    live: TStream,
    stream: MapStream<TStream>,
    items: Seq<Serialized>,
)
    requires
        SealedRequestLayer::<StreamMarker>::starts(live, stream),
        forall|i: int| 0 <= i < items.len() ==> (#[trigger] items[i]) is Ok,
    ensures
        stream@.run(items).frames =~= Seq::new(
            items.len(),
            |i: int| Ok::<serde_json::Value, ExecError>(items[i]->Ok_0),
        ),
{
    lemma_every_item_is_forwarded(live, items);
}

/// A stream gives the items before the first one without a wire format, then
/// the error of that one, and is not polled again.
pub proof fn lemma_stream_stops_at_its_first_failure<TStream>(
    live: TStream,
    stream: MapStream<TStream>,
    items: Seq<Serialized>,
    failed: int,
)
    requires
        SealedRequestLayer::<StreamMarker>::starts(live, stream),
        0 <= failed < items.len(),
        items[failed] is Err,
        forall|i: int| 0 <= i < failed ==> (#[trigger] items[i]) is Ok,
    ensures
        stream@.run(items).frames =~= Seq::new(
            (failed + 1) as nat,
            |i: int|
                if i < failed {
                    Ok::<serde_json::Value, ExecError>(items[i]->Ok_0)
                } else {
                    Err(ExecError::SerializingResultErr(items[failed]->Err_0))
                },
        ),
        stream@.run(items).polls == failed + 1,
{
    lemma_first_failure_ends_the_sequence(live, items, failed);
}

/// A fallible stream that is the error of the resolver gives that error and
/// nothing else: there is no stream, and none is polled.
pub proof fn lemma_failed_stream_gives_its_error_only<TStream>(
    error: DomainError,
    stream: MapStream<TStream>,
    items: Seq<Serialized>,
)
    requires
        SealedRequestLayer::<ResultStreamMarker>::starts(Err::<TStream, DomainError>(error), stream),
    ensures
        stream@.run(items) == (Trace {
            frames: seq![Err(ExecError::ErrResolverError(error))],
            polls: 0,
        }),
{
    lemma_primed_gives_its_error_only::<TStream>(error, items);
}

/// A future of a fallible stream that resolves to a stream gives the items
/// of that stream; one that resolves to the error of the resolver gives that
/// error and nothing else, and no stream is ever polled.
pub proof fn lemma_future_gives_its_stream_or_its_error<TFut, TStream>(
    future: TFut,
    stream: FutureMapStream<TFut, TStream>,
    resolution: Result<TStream, DomainError>,
    items: Seq<Serialized>,
) where TFut: Future<Output = Result<TStream, DomainError>>
    requires
        SealedRequestLayer::<FutureResultStreamMarker>::starts(future, stream),
        forall|i: int| 0 <= i < items.len() ==> (#[trigger] items[i]) is Ok,
    ensures
        resolution is Ok ==> stream@.run(resolution, items).frames =~= Seq::new(
            items.len(),
            |i: int| Ok::<serde_json::Value, ExecError>(items[i]->Ok_0),
        ),
        resolution is Err ==> stream@.run(resolution, items) == (FutureTrace {
            frames: seq![Err(ExecError::ErrResolverError(resolution->Err_0))],
            future_polls: 1,
            stream_polls: 0,
        }),
{
    match resolution {
        Ok(live) => lemma_resolved_future_gives_every_item(future, live, items),
        Err(error) => lemma_failed_future_gives_its_error_only::<TFut, TStream>(
            future,
            error,
            items,
        ),
    }
}

/// A future of a stream gives the items of the stream that it resolves to.
pub proof fn lemma_future_gives_its_stream<TFut, TStream>(
    future: TFut,
    stream: FutureMapStream<TFut, TStream>,
    live: TStream,
    items: Seq<Serialized>,
) where TFut: Future<Output = TStream>
    requires
        SealedRequestLayer::<FutureStreamMarker>::starts(future, stream),
        forall|i: int| 0 <= i < items.len() ==> (#[trigger] items[i]) is Ok,
    ensures
        stream@.run(Ok(live), items).frames =~= Seq::new(
            items.len(),
            |i: int| Ok::<serde_json::Value, ExecError>(items[i]->Ok_0),
        ),
{
    lemma_resolved_future_gives_every_item(future, live, items);
}

} // verus!
