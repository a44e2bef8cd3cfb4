//! The adapter for a live stream of values.

use crate::outcome::{value_frame, DomainError, ExecError, Outcome};
use crate::poll::{Polled, Step};
use crate::wire::Serialized;
use vstd::prelude::*;

verus! {

/// The answer to a pull, given what polling the stream gave: each item becomes
/// its frame, the end stays the end, and a stream that has nothing yet makes
/// the adapter have nothing yet.
pub open spec fn forwarded(polled: Polled<Option<Serialized>>) -> Polled<Option<Outcome>> {
    match polled {
        Polled::Ready(Some(item)) => Polled::Ready(Some(value_frame(item))),
        Polled::Ready(None) => Polled::Ready(None),
        Polled::Pending => Polled::Pending,
    }
}

/// Whether the adapter lets go of its stream after this poll: the stream has
/// ended, or an item of it had no wire format.
pub open spec fn releases(polled: Polled<Option<Serialized>>) -> bool {
    match polled {
        Polled::Ready(Some(item)) => item is Err,
        Polled::Ready(None) => true,
        Polled::Pending => false,
    }
}

/// What a stream gives at its next poll when it has `items` ready and then
/// ends.
pub open spec fn next_item(items: Seq<Serialized>) -> Option<Serialized> {
    if items.len() > 0 {
        Some(items[0])
    } else {
        None
    }
}

/// What such a stream has ready after that poll.
pub open spec fn later_items(items: Seq<Serialized>) -> Seq<Serialized> {
    if items.len() > 0 {
        items.skip(1)
    } else {
        items
    }
}

/// Where a stream adapter stands. It holds an error or a stream, never both.
pub enum StreamPhase<S> {
    /// The resolver had failed before a stream existed. The first pull hands
    /// the error out.
    Primed(DomainError),
    /// The stream is live and is polled at each pull.
    Streaming(S),
    /// The sequence has ended. Nothing is held.
    Exhausted,
}

/// What a consumer has seen who pulled until the sequence ended.
pub struct Trace {
    /// The frames, in the order in which they came.
    pub frames: Seq<Outcome>,
    /// How often the stream was polled.
    pub polls: nat,
}

/// What one pull by the consumer leaves behind.
pub struct Pulled<S> {
    /// Where the adapter stands after it.
    pub phase: StreamPhase<S>,
    /// The items that the stream has not handed out yet.
    pub rest: Seq<Serialized>,
    /// The answer: a frame, or the end of the sequence.
    pub frame: Option<Outcome>,
    /// Whether the stream was polled.
    pub polled: bool,
}

impl<S> StreamPhase<S> {
    /// The start of a pull: where the adapter stands then, and what it asks of
    /// its driver.
    pub open spec fn poll_next(self) -> (Self, Step) {
        match self {
            StreamPhase::Primed(error) => (
                StreamPhase::Exhausted,
                Step::Answer(Polled::Ready(Some(Err(ExecError::ErrResolverError(error))))),
            ),
            StreamPhase::Streaming(_) => (self, Step::PollStream),
            StreamPhase::Exhausted => (self, Step::Answer(Polled::Ready(None))),
        }
    }

    /// The end of a pull that polled the stream: where the adapter stands then,
    /// and its answer.
    pub open spec fn forward(self, polled: Polled<Option<Serialized>>) -> (Self, Polled<
        Option<Outcome>,
    >) {
        (
            if releases(polled) {
                StreamPhase::Exhausted
            } else {
                self
            },
            forwarded(polled),
        )
    }

    /// One whole pull, served by a stream that has `items` ready and then ends.
    pub open spec fn pull(self, items: Seq<Serialized>) -> Pulled<S> {
        let (asked, step) = self.poll_next();
        match step {
            Step::Answer(Polled::Ready(frame)) => Pulled {
                phase: asked,
                rest: items,
                frame,
                polled: false,
            },
            _ => {
                let (phase, answer) = asked.forward(Polled::Ready(next_item(items)));
                Pulled { phase, rest: later_items(items), frame: answer->Ready_0, polled: true }
            },
        }
    }

    /// Everything that a consumer sees who pulls until the sequence ends, from
    /// a stream that has `items` ready and then ends.
    pub open spec fn run(self, items: Seq<Serialized>) -> Trace
        decreases items.len(), (if self is Primed { 1nat } else { 0nat }),
    {
        let pulled = self.pull(items);
        let polls = if pulled.polled { 1nat } else { 0nat };
        match pulled.frame {
            Some(frame) => {
                let later = pulled.phase.run(pulled.rest);
                Trace { frames: seq![frame] + later.frames, polls: polls + later.polls }
            },
            None => Trace { frames: seq![], polls },
        }
    }
}

/// The adapter for a live stream: each item of the stream becomes one frame, in
/// the order of the stream, until the stream ends or an item has no wire
/// format.
///
/// The adapter owns the stream and lets go of it when the sequence ends.
pub struct MapStream<S> {
    phase: StreamPhase<S>,
}

impl<S> View for MapStream<S> {
    type V = StreamPhase<S>;

    /// Where the adapter stands.
    closed spec fn view(&self) -> StreamPhase<S> {
        self.phase
    }
}

impl<S> MapStream<S> {
    /// An adapter over a live stream.
    pub fn new(stream: S) -> (adapter: Self)
        ensures
            adapter@ == StreamPhase::Streaming(stream),
    {
        MapStream { phase: StreamPhase::Streaming(stream) }
    }

    /// An adapter for a resolver that failed before any stream existed: its
    /// sequence is that error and nothing else.
    pub fn failed(error: DomainError) -> (adapter: Self)
        ensures
            adapter@ == StreamPhase::<S>::Primed(error),
    {
        MapStream { phase: StreamPhase::Primed(error) }
    }

    /// Starts a pull. A primed adapter answers with its error, once; one that
    /// has ended answers with the end; one that holds a stream asks for that
    /// stream to be polled, and `forward` then ends the pull.
    pub fn poll_next(&mut self) -> (step: Step)
        ensures
            (final(self)@, step) == old(self)@.poll_next(),
    {
        let mut phase = StreamPhase::Exhausted;
        core::mem::swap(&mut self.phase, &mut phase);
        match phase {
            StreamPhase::Primed(error) => Step::Answer(
                Polled::Ready(Some(Err(ExecError::ErrResolverError(error)))),
            ),
            StreamPhase::Streaming(stream) => {
                self.phase = StreamPhase::Streaming(stream);
                Step::PollStream
            },
            StreamPhase::Exhausted => Step::Answer(Polled::Ready(None)),
        }
    }

    /// The stream to poll, while there is one.
    pub fn stream_mut(&mut self) -> (stream: Option<&mut S>)
        ensures
            match stream {
                Some(s) => old(self)@ == StreamPhase::Streaming(*s) && final(self)@
                    == StreamPhase::Streaming(*final(s)),
                None => !(old(self)@ is Streaming) && final(self)@ == old(self)@,
            },
    {
        match &mut self.phase {
            StreamPhase::Streaming(stream) => Some(stream),
            _ => None,
        }
    }

    /// Ends a pull with what polling the stream gave. An item becomes its
    /// frame. When the stream has ended, or when the item had no wire format,
    /// the adapter lets go of the stream and its sequence has ended.
    pub fn forward(&mut self, polled: Polled<Option<Serialized>>) -> (answer: Polled<
        Option<Outcome>,
    >)
        requires
            old(self)@ is Streaming,
        ensures
            (final(self)@, answer) == old(self)@.forward(polled),
    {
        match polled {
            Polled::Ready(Some(item)) => {
                if item.is_err() {
                    self.phase = StreamPhase::Exhausted;
                }
                Polled::Ready(Some(value_frame(item)))
            },
            Polled::Ready(None) => {
                self.phase = StreamPhase::Exhausted;
                Polled::Ready(None)
            },
            Polled::Pending => Polled::Pending,
        }
    }

    /// The bounds on the number of frames that the stream will still give:
    /// those that `stream_hint` reads from the stream while the adapter holds
    /// one, and none at all when it holds none. The error of a primed adapter
    /// comes from no stream and is not counted.
    pub fn size_hint<H>(&self, stream_hint: H) -> (bounds: (usize, Option<usize>)) where
        H: FnOnce(&S) -> (usize, Option<usize>),

        requires
            self@ matches StreamPhase::Streaming(live) ==> call_requires(stream_hint, (&live,)),
        ensures
            match self@ {
                StreamPhase::Streaming(live) => call_ensures(stream_hint, (&live,), bounds),
                _ => bounds == (0usize, Some(0usize)),
            },
    {
        match &self.phase {
            StreamPhase::Streaming(live) => stream_hint(live),
            _ => (0, Some(0)),
        }
    }
}

/// A stream whose items all have a wire format gives one frame for each item,
/// in the order of the stream, and then ends. The stream is polled once for
/// each item and once more for its end.
pub proof fn lemma_every_item_is_forwarded<S>(stream: S, items: Seq<Serialized>)
    requires
        forall|i: int| 0 <= i < items.len() ==> (#[trigger] items[i]) is Ok,
    ensures
        StreamPhase::Streaming(stream).run(items).frames =~= Seq::new(
            items.len(),
            |i: int| Ok::<serde_json::Value, ExecError>(items[i]->Ok_0),
        ),
        StreamPhase::Streaming(stream).run(items).polls == items.len() + 1,
    decreases items.len(),
{
    if items.len() > 0 {
        assert(items[0] is Ok);
        lemma_every_item_is_forwarded(stream, items.skip(1));
    }
}

/// When the item at `failed` is the first without a wire format, the frames
/// are those of the items before it and then the error of that item, which is
/// the last frame. The stream is polled for that item and never again.
pub proof fn lemma_first_failure_ends_the_sequence<S>(
    stream: S,
    items: Seq<Serialized>,
    failed: int,
)
    requires
        0 <= failed < items.len(),
        items[failed] is Err,
        forall|i: int| 0 <= i < failed ==> (#[trigger] items[i]) is Ok,
    ensures
        StreamPhase::Streaming(stream).run(items).frames =~= Seq::new(
            (failed + 1) as nat,
            |i: int|
                if i < failed {
                    Ok::<serde_json::Value, ExecError>(items[i]->Ok_0)
                } else {
                    Err(ExecError::SerializingResultErr(items[failed]->Err_0))
                },
        ),
        StreamPhase::Streaming(stream).run(items).polls == failed + 1,
    decreases failed,
{
    if failed > 0 {
        assert(items[0] is Ok);
        lemma_first_failure_ends_the_sequence(stream, items.skip(1), failed - 1);
    } else {
        lemma_the_end_is_final::<S>(StreamPhase::Exhausted, items.skip(1));
    }
}

/// An adapter that was primed with an error gives that error and nothing
/// else, whatever a stream would have held: no stream is ever polled.
pub proof fn lemma_primed_gives_its_error_only<S>(error: DomainError, items: Seq<Serialized>)
    ensures
        StreamPhase::<S>::Primed(error).run(items) == (Trace {
            frames: seq![Err(ExecError::ErrResolverError(error))],
            polls: 0,
        }),
{
    let first = StreamPhase::<S>::Primed(error).pull(items);
    assert(first.phase.run(first.rest).frames =~= seq![]);
    assert(StreamPhase::<S>::Primed(error).run(items).frames =~= seq![
        Err(ExecError::ErrResolverError(error)),
    ]);
}

/// While the stream has nothing yet, neither has the sequence, and the adapter
/// stays as it is.
pub proof fn lemma_pending_stream_is_kept<S>(phase: StreamPhase<S>)
    ensures
        phase.forward(Polled::Pending) == (phase, Polled::<Option<Outcome>>::Pending),
{
}

/// After the end of the sequence, and after an error, the adapter has ended:
/// every later pull is answered with the end, without a poll, and leaves the
/// adapter as it is.
pub proof fn lemma_the_end_is_final<S>(phase: StreamPhase<S>, items: Seq<Serialized>)
    ensures
        phase.pull(items).frame is None || phase.pull(items).frame->0 is Err
            ==> phase.pull(items).phase is Exhausted,
        StreamPhase::<S>::Exhausted.pull(items) == (Pulled {
            phase: StreamPhase::<S>::Exhausted,
            rest: items,
            frame: None,
            polled: false,
        }),
        StreamPhase::<S>::Exhausted.run(items) == (Trace { frames: seq![], polls: 0 }),
{
}

/// No frame follows an error: in what a consumer sees, every frame but the
/// last is a value.
pub proof fn lemma_only_the_last_frame_is_an_error<S>(
    phase: StreamPhase<S>,
    items: Seq<Serialized>,
)
    ensures
        forall|i: int|
            0 <= i < phase.run(items).frames.len() - 1 ==> (#[trigger] phase.run(
                items,
            ).frames[i]) is Ok,
    decreases items.len(), (if phase is Primed { 1nat } else { 0nat }),
{
    let pulled = phase.pull(items);
    if pulled.frame is Some {
        lemma_only_the_last_frame_is_an_error(pulled.phase, pulled.rest);
        lemma_the_end_is_final(phase, items);
        lemma_the_end_is_final::<S>(pulled.phase, pulled.rest);
        let later = pulled.phase.run(pulled.rest);
        assert forall|i: int| 0 <= i < phase.run(items).frames.len() - 1 implies (
        #[trigger] phase.run(items).frames[i]) is Ok by {
            if i > 0 {
                assert(phase.run(items).frames[i] == later.frames[i - 1]);
            }
        }
    }
}

} // verus!
