//! The adapter for a future that resolves to a stream.

use crate::outcome::{DomainError, ExecError, Outcome};
use crate::map_stream::{
    forwarded, later_items, lemma_every_item_is_forwarded, next_item, releases, StreamPhase,
};
use crate::poll::{Polled, Step};
use crate::wire::Serialized;
use vstd::prelude::*;

verus! {

/// The phase of a two-phase adapter. It only ever advances, in this order.
#[derive(Debug, Clone, Copy, PartialEq, Eq, Structural)]
pub enum AdapterPhase {
    /// The future has not resolved yet, or a known error has not been handed
    /// out yet.
    AwaitingFuture,
    /// The future gave a stream, which is live.
    Streaming,
    /// The sequence has ended.
    Exhausted,
}

/// Where a two-phase adapter stands, with what it holds there: an error, the
/// future or the stream, never two of them.
pub enum FuturePhase<F, S> {
    /// The resolver had failed before a future existed. The first pull hands
    /// the error out.
    Primed(DomainError),
    /// The future is polled at each pull until it resolves.
    AwaitingFuture(F),
    /// The future is gone; the stream that it gave is polled at each pull.
    Streaming(S),
    /// The sequence has ended. Nothing is held.
    Exhausted,
}

/// What one pull by the consumer leaves behind.
pub struct FuturePulled<F, S> {
    /// Where the adapter stands after it.
    pub phase: FuturePhase<F, S>,
    /// The items that the stream has not handed out yet.
    pub rest: Seq<Serialized>,
    /// The answer: a frame, or the end of the sequence.
    pub frame: Option<Outcome>,
    /// Whether the future was polled.
    pub future_polled: bool,
    /// Whether the stream was polled.
    pub stream_polled: bool,
}

/// What a consumer has seen who pulled until the sequence ended.
pub struct FutureTrace {
    /// The frames, in the order in which they came.
    pub frames: Seq<Outcome>,
    /// How often the future was polled.
    pub future_polls: nat,
    /// How often the stream was polled.
    pub stream_polls: nat,
}

impl<F, S> FuturePhase<F, S> {
    /// The phase, without what is held in it.
    pub open spec fn phase(self) -> AdapterPhase {
        match self {
            FuturePhase::Primed(_) => AdapterPhase::AwaitingFuture,
            FuturePhase::AwaitingFuture(_) => AdapterPhase::AwaitingFuture,
            FuturePhase::Streaming(_) => AdapterPhase::Streaming,
            FuturePhase::Exhausted => AdapterPhase::Exhausted,
        }
    }

    /// The start of a pull: where the adapter stands then, and what it asks of
    /// its driver.
    pub open spec fn poll_next(self) -> (Self, Step) {
        match self {
            FuturePhase::Primed(error) => (
                FuturePhase::Exhausted,
                Step::Answer(Polled::Ready(Some(Err(ExecError::ErrResolverError(error))))),
            ),
            FuturePhase::AwaitingFuture(_) => (self, Step::PollFuture),
            FuturePhase::Streaming(_) => (self, Step::PollStream),
            FuturePhase::Exhausted => (self, Step::Answer(Polled::Ready(None))),
        }
    }

    /// After a poll of the future: where the adapter stands then, and what it
    /// asks next. A stream is polled within the same pull; an error is the
    /// only frame; a future that has nothing yet is kept.
    pub open spec fn resolved(self, polled: Polled<Result<S, DomainError>>) -> (Self, Step) {
        match polled {
            Polled::Ready(Ok(stream)) => (FuturePhase::Streaming(stream), Step::PollStream),
            Polled::Ready(Err(error)) => (
                FuturePhase::Exhausted,
                Step::Answer(Polled::Ready(Some(Err(ExecError::ErrResolverError(error))))),
            ),
            Polled::Pending => (self, Step::Answer(Polled::Pending)),
        }
    }

    /// The end of a pull that polled the stream: where the adapter stands then,
    /// and its answer.
    pub open spec fn forward(self, polled: Polled<Option<Serialized>>) -> (Self, Polled<
        Option<Outcome>,
    >) {
        (
            if releases(polled) {
                FuturePhase::Exhausted
            } else {
                self
            },
            forwarded(polled),
        )
    }

    /// One whole pull, served by a future that resolves to `resolution` when it
    /// is polled and by a stream that has `items` ready and then ends.
    pub open spec fn pull(
        self,
        resolution: Result<S, DomainError>,
        items: Seq<Serialized>,
    ) -> FuturePulled<F, S> {
        let (asked, step) = self.poll_next();
        let (settled, next) = if step is PollFuture {
            asked.resolved(Polled::Ready(resolution))
        } else {
            (asked, step)
        };
        match next {
            Step::Answer(Polled::Ready(frame)) => FuturePulled {
                phase: settled,
                rest: items,
                frame,
                future_polled: step is PollFuture,
                stream_polled: false,
            },
            _ => {
                let (phase, answer) = settled.forward(Polled::Ready(next_item(items)));
                FuturePulled {
                    phase,
                    rest: later_items(items),
                    frame: answer->Ready_0,
                    future_polled: step is PollFuture,
                    stream_polled: true,
                }
            },
        }
    }

    /// Everything that a consumer sees who pulls until the sequence ends.
    pub open spec fn run(
        self,
        resolution: Result<S, DomainError>,
        items: Seq<Serialized>,
    ) -> FutureTrace
        decreases items.len(), (if self is Primed || self is AwaitingFuture {
            1nat
        } else {
            0nat
        }),
    {
        let pulled = self.pull(resolution, items);
        let future_polls = if pulled.future_polled { 1nat } else { 0nat };
        let stream_polls = if pulled.stream_polled { 1nat } else { 0nat };
        match pulled.frame {
            Some(frame) => {
                let later = pulled.phase.run(resolution, pulled.rest);
                FutureTrace {
                    frames: seq![frame] + later.frames,
                    future_polls: future_polls + later.future_polls,
                    stream_polls: stream_polls + later.stream_polls,
                }
            },
            None => FutureTrace { frames: seq![], future_polls, stream_polls },
        }
    }
}

/// The adapter for a future that resolves to a stream, or to the error of a
/// resolver that has no stream to give. While the future is pending the
/// sequence has nothing yet; the frames are then those of the stream.
///
/// The adapter owns the future, then the stream, and lets go of each when it
/// leaves the phase that needed it.
pub struct FutureMapStream<F, S> {
    phase: FuturePhase<F, S>,
}

impl<F, S> View for FutureMapStream<F, S> {
    type V = FuturePhase<F, S>;

    /// Where the adapter stands.
    closed spec fn view(&self) -> FuturePhase<F, S> {
        self.phase
    }
}

impl<F, S> FutureMapStream<F, S> {
    /// An adapter that awaits `future`.
    pub fn new(future: F) -> (adapter: Self)
        ensures
            adapter@ == FuturePhase::<F, S>::AwaitingFuture(future),
    {
        FutureMapStream { phase: FuturePhase::AwaitingFuture(future) }
    }

    /// An adapter for a resolver that failed before any future existed: its
    /// sequence is that error and nothing else.
    pub fn failed(error: DomainError) -> (adapter: Self)
        ensures
            adapter@ == FuturePhase::<F, S>::Primed(error),
    {
        FutureMapStream { phase: FuturePhase::Primed(error) }
    }

    /// The phase that the adapter is in.
    pub fn phase(&self) -> (phase: AdapterPhase)
        ensures
            phase == self@.phase(),
    {
        match &self.phase {
            FuturePhase::Primed(_) => AdapterPhase::AwaitingFuture,
            FuturePhase::AwaitingFuture(_) => AdapterPhase::AwaitingFuture,
            FuturePhase::Streaming(_) => AdapterPhase::Streaming,
            FuturePhase::Exhausted => AdapterPhase::Exhausted,
        }
    }

    /// Starts a pull. A primed adapter answers with its error, once; one that
    /// has ended answers with the end; otherwise the adapter asks for a poll of
    /// what it holds: of the future, which `resolved` takes up, or of the
    /// stream, which `forward` takes up.
    pub fn poll_next(&mut self) -> (step: Step)
        ensures
            (final(self)@, step) == old(self)@.poll_next(),
    {
        let mut phase = FuturePhase::Exhausted;
        core::mem::swap(&mut self.phase, &mut phase);
        match phase {
            FuturePhase::Primed(error) => Step::Answer(
                Polled::Ready(Some(Err(ExecError::ErrResolverError(error)))),
            ),
            FuturePhase::AwaitingFuture(future) => {
                self.phase = FuturePhase::AwaitingFuture(future);
                Step::PollFuture
            },
            FuturePhase::Streaming(stream) => {
                self.phase = FuturePhase::Streaming(stream);
                Step::PollStream
            },
            FuturePhase::Exhausted => Step::Answer(Polled::Ready(None)),
        }
    }

    /// The future to poll, while it is awaited.
    pub fn future_mut(&mut self) -> (future: Option<&mut F>)
        ensures
            match future {
                Some(f) => old(self)@ == FuturePhase::<F, S>::AwaitingFuture(*f) && final(self)@
                    == FuturePhase::<F, S>::AwaitingFuture(*final(f)),
                None => !(old(self)@ is AwaitingFuture) && final(self)@ == old(self)@,
            },
    {
        match &mut self.phase {
            FuturePhase::AwaitingFuture(future) => Some(future),
            _ => None,
        }
    }

    /// The stream to poll, while there is one.
    pub fn stream_mut(&mut self) -> (stream: Option<&mut S>)
        ensures
            match stream {
                Some(s) => old(self)@ == FuturePhase::<F, S>::Streaming(*s) && final(self)@
                    == FuturePhase::<F, S>::Streaming(*final(s)),
                None => !(old(self)@ is Streaming) && final(self)@ == old(self)@,
            },
    {
        match &mut self.phase {
            FuturePhase::Streaming(stream) => Some(stream),
            _ => None,
        }
    }

    /// Takes up a poll of a future that resolves to a stream or to the
    /// resolver's error. The future is let go as soon as it has resolved. With
    /// a stream the adapter goes on to stream within the same pull; the error
    /// is the only frame of the sequence.
    pub fn resolved(&mut self, polled: Polled<Result<S, DomainError>>) -> (step: Step)
        requires
            old(self)@ is AwaitingFuture,
        ensures
            (final(self)@, step) == old(self)@.resolved(polled),
    {
        match polled {
            Polled::Ready(Ok(stream)) => {
                self.phase = FuturePhase::Streaming(stream);
                Step::PollStream
            },
            Polled::Ready(Err(error)) => {
                self.phase = FuturePhase::Exhausted;
                Step::Answer(Polled::Ready(Some(Err(ExecError::ErrResolverError(error)))))
            },
            Polled::Pending => Step::Answer(Polled::Pending),
        }
    }

    /// Takes up a poll of a future that cannot fail and resolves to a stream.
    pub fn resolved_stream(&mut self, polled: Polled<S>) -> (step: Step)
        requires
            old(self)@ is AwaitingFuture,
        ensures
            (final(self)@, step) == old(self)@.resolved(
                match polled {
                    Polled::Ready(stream) => Polled::Ready(Ok(stream)),
                    Polled::Pending => Polled::Pending,
                },
            ),
    {
        match polled {
            Polled::Ready(stream) => self.resolved(Polled::Ready(Ok(stream))),
            Polled::Pending => self.resolved(Polled::Pending),
        }
    }

    /// Ends a pull with what polling the stream gave. An item becomes its
    /// frame. When the stream has ended, or when the item had no wire format,
    /// the adapter lets go of the stream and its sequence has ended.
    pub fn forward(&mut self, polled: Polled<Option<Serialized>>) -> (answer: Polled<
        Option<Outcome>,
    >)
        requires
            old(self)@ is Streaming,
        ensures
            (final(self)@, answer) == old(self)@.forward(polled),
    {
        match polled {
            Polled::Ready(Some(item)) => {
                if item.is_err() {
                    self.phase = FuturePhase::Exhausted;
                }
                Polled::Ready(Some(crate::outcome::value_frame(item)))
            },
            Polled::Ready(None) => {
                self.phase = FuturePhase::Exhausted;
                Polled::Ready(None)
            },
            Polled::Pending => Polled::Pending,
        }
    }

    /// The bounds on the number of frames that are still to come: none can be
    /// given while the future is awaited; those that `stream_hint` reads from
    /// the stream hold while the adapter holds one; and no frame comes from a
    /// stream when it holds neither. The error of a primed adapter comes from
    /// no stream and is not counted.
    pub fn size_hint<H>(&self, stream_hint: H) -> (bounds: (usize, Option<usize>)) where
        H: FnOnce(&S) -> (usize, Option<usize>),

        requires
            self@ matches FuturePhase::Streaming(live) ==> call_requires(stream_hint, (&live,)),
        ensures
            match self@ {
                FuturePhase::AwaitingFuture(_) => bounds == (0usize, None::<usize>),
                FuturePhase::Streaming(live) => call_ensures(stream_hint, (&live,), bounds),
                _ => bounds == (0usize, Some(0usize)),
            },
    {
        match &self.phase {
            FuturePhase::AwaitingFuture(_) => (0, None),
            FuturePhase::Streaming(live) => stream_hint(live),
            _ => (0, Some(0)),
        }
    }
}

/// How far a phase is on the way from awaiting to the end.
pub open spec fn rank(phase: AdapterPhase) -> nat {
    match phase {
        AdapterPhase::AwaitingFuture => 0,
        AdapterPhase::Streaming => 1,
        AdapterPhase::Exhausted => 2,
    }
}

/// The phases only advance: no step takes an adapter back to a phase that it
/// has left. The stream phase is entered from the awaiting phase alone, and
/// only by a future that resolved to a stream.
pub proof fn lemma_phases_only_advance<F, S>(
    phase: FuturePhase<F, S>,
    future_gave: Polled<Result<S, DomainError>>,
    stream_gave: Polled<Option<Serialized>>,
)
    ensures
        rank(phase.phase()) <= rank(phase.poll_next().0.phase()),
        phase.poll_next().0.phase() == AdapterPhase::Streaming ==> phase is Streaming,
        phase is AwaitingFuture ==> rank(phase.phase()) <= rank(
            phase.resolved(future_gave).0.phase(),
        ),
        phase is AwaitingFuture ==> (phase.resolved(future_gave).0 is Streaming
            <==> future_gave is Ready && future_gave->Ready_0 is Ok),
        phase is Streaming ==> rank(phase.phase()) <= rank(phase.forward(stream_gave).0.phase()),
{
}

/// In its stream phase a two-phase adapter is a stream adapter: it gives the
/// same frames by the same polls of the stream, and polls no future.
pub proof fn lemma_streams_as_the_stream_adapter<F, S>(
    stream: S,
    resolution: Result<S, DomainError>,
    items: Seq<Serialized>,
)
    ensures
        FuturePhase::<F, S>::Streaming(stream).run(resolution, items) == (FutureTrace {
            frames: StreamPhase::Streaming(stream).run(items).frames,
            future_polls: 0,
            stream_polls: StreamPhase::Streaming(stream).run(items).polls,
        }),
    decreases items.len(),
{
    if items.len() > 0 {
        if items[0] is Ok {
            lemma_streams_as_the_stream_adapter::<F, S>(stream, resolution, items.skip(1));
        } else {
            lemma_the_end_of_both_phases_is_final::<F, S>(
                FuturePhase::Exhausted,
                resolution,
                items.skip(1),
            );
            crate::map_stream::lemma_the_end_is_final::<S>(
                StreamPhase::Exhausted,
                items.skip(1),
            );
        }
    }
}

/// When the future resolves to a stream, the frames are those of a stream
/// adapter over that stream: the first pull polls the future once and goes
/// on to the stream at once, and no frame stands for the future itself.
pub proof fn lemma_resolved_future_gives_the_stream<F, S>(
    future: F,
    stream: S,
    items: Seq<Serialized>,
)
    ensures
        FuturePhase::AwaitingFuture(future).run(Ok(stream), items) == (FutureTrace {
            frames: StreamPhase::Streaming(stream).run(items).frames,
            future_polls: 1,
            stream_polls: StreamPhase::Streaming(stream).run(items).polls,
        }),
{
    let resolution = Ok::<S, DomainError>(stream);
    let first = FuturePhase::AwaitingFuture(future).pull(resolution, items);
    if items.len() > 0 && items[0] is Ok {
        lemma_streams_as_the_stream_adapter::<F, S>(stream, resolution, items.skip(1));
    } else if items.len() > 0 {
        lemma_the_end_of_both_phases_is_final::<F, S>(
            FuturePhase::Exhausted,
            resolution,
            items.skip(1),
        );
        crate::map_stream::lemma_the_end_is_final::<S>(StreamPhase::Exhausted, items.skip(1));
    }
}

/// When the future resolves to a stream whose items all have a wire format,
/// the frames are those items, in the order of the stream.
pub proof fn lemma_resolved_future_gives_every_item<F, S>(
    future: F,
    stream: S,
    items: Seq<Serialized>,
)
    requires
        forall|i: int| 0 <= i < items.len() ==> (#[trigger] items[i]) is Ok,
    ensures
        FuturePhase::AwaitingFuture(future).run(Ok(stream), items).frames =~= Seq::new(
            items.len(),
            |i: int| Ok::<serde_json::Value, ExecError>(items[i]->Ok_0),
        ),
{
    lemma_resolved_future_gives_the_stream(future, stream, items);
    lemma_every_item_is_forwarded(stream, items);
}

/// When the future resolves to the resolver's error, that error is the only
/// frame: the stream phase is never entered and no stream is ever polled.
pub proof fn lemma_failed_future_gives_its_error_only<F, S>(
    future: F,
    error: DomainError,
    items: Seq<Serialized>,
)
    ensures
        FuturePhase::<F, S>::AwaitingFuture(future).run(Err(error), items) == (FutureTrace {
            frames: seq![Err(ExecError::ErrResolverError(error))],
            future_polls: 1,
            stream_polls: 0,
        }),
        FuturePhase::<F, S>::AwaitingFuture(future).pull(Err(error), items).phase is Exhausted,
{
    let resolution = Err::<S, DomainError>(error);
    let first = FuturePhase::<F, S>::AwaitingFuture(future).pull(resolution, items);
    assert(first.phase.run(resolution, first.rest).frames =~= seq![]);
    assert(FuturePhase::<F, S>::AwaitingFuture(future).run(resolution, items).frames =~= seq![
        Err(ExecError::ErrResolverError(error)),
    ]);
}

/// An adapter that was primed with an error gives that error and nothing
/// else: neither a future nor a stream is ever polled.
pub proof fn lemma_primed_future_gives_its_error_only<F, S>(
    error: DomainError,
    resolution: Result<S, DomainError>,
    items: Seq<Serialized>,
)
    ensures
        FuturePhase::<F, S>::Primed(error).run(resolution, items) == (FutureTrace {
            frames: seq![Err(ExecError::ErrResolverError(error))],
            future_polls: 0,
            stream_polls: 0,
        }),
{
    let first = FuturePhase::<F, S>::Primed(error).pull(resolution, items);
    assert(first.phase.run(resolution, first.rest).frames =~= seq![]);
    assert(FuturePhase::<F, S>::Primed(error).run(resolution, items).frames =~= seq![
        Err(ExecError::ErrResolverError(error)),
    ]);
}

/// While the future or the stream has nothing yet, neither has the sequence,
/// and the adapter stays as it is.
pub proof fn lemma_pending_poll_is_kept<F, S>(phase: FuturePhase<F, S>)
    ensures
        phase.resolved(Polled::Pending) == (phase, Step::Answer(Polled::Pending)),
        phase.forward(Polled::Pending) == (phase, Polled::<Option<Outcome>>::Pending),
{
}

/// After the end of the sequence, and after an error, the adapter has ended:
/// every later pull is answered with the end, without a poll, and leaves the
/// adapter as it is.
pub proof fn lemma_the_end_of_both_phases_is_final<F, S>(
    phase: FuturePhase<F, S>,
    resolution: Result<S, DomainError>,
    items: Seq<Serialized>,
)
    ensures
        phase.pull(resolution, items).frame is None || phase.pull(resolution, items).frame->0
            is Err ==> phase.pull(resolution, items).phase is Exhausted,
        FuturePhase::<F, S>::Exhausted.pull(resolution, items) == (FuturePulled {
            phase: FuturePhase::<F, S>::Exhausted,
            rest: items,
            frame: None,
            future_polled: false,
            stream_polled: false,
        }),
        FuturePhase::<F, S>::Exhausted.run(resolution, items) == (FutureTrace {
            frames: seq![],
            future_polls: 0,
            stream_polls: 0,
        }),
{
}

/// No frame follows an error: in what a consumer sees, every frame but the
/// last is a value.
pub proof fn lemma_only_the_last_frame_of_both_phases_is_an_error<F, S>(
    phase: FuturePhase<F, S>,
    resolution: Result<S, DomainError>,
    items: Seq<Serialized>,
)
    ensures
        forall|i: int|
            0 <= i < phase.run(resolution, items).frames.len() - 1 ==> (#[trigger] phase.run(
                resolution,
                items,
            ).frames[i]) is Ok,
    decreases items.len(), (if phase is Primed || phase is AwaitingFuture {
        1nat
    } else {
        0nat
    }),
{
    let pulled = phase.pull(resolution, items);
    if pulled.frame is Some {
        lemma_only_the_last_frame_of_both_phases_is_an_error(pulled.phase, resolution, pulled.rest);
        lemma_the_end_of_both_phases_is_final(phase, resolution, items);
        lemma_the_end_of_both_phases_is_final::<F, S>(pulled.phase, resolution, pulled.rest);
        let later = pulled.phase.run(resolution, pulled.rest);
        assert forall|i: int|
            0 <= i < phase.run(resolution, items).frames.len() - 1 implies (#[trigger] phase.run(
            resolution,
            items,
        ).frames[i]) is Ok by {
            if i > 0 {
                assert(phase.run(resolution, items).frames[i] == later.frames[i - 1]);
            }
        }
    }
}

} // verus!
