//! The adapters for a future that resolves to one value.

use crate::outcome::{result_frame, value_frame, DomainError, Outcome};
use crate::poll::{Polled, Step};
use crate::wire::Serialized;
use vstd::prelude::*;

verus! {

/// Where the adapter of a future stands: it holds the future until the future
/// has resolved.
pub enum ValuePhase<TFut> {
    /// The future is polled at each pull until it resolves.
    AwaitingFuture(TFut),
    /// The one frame has been handed out. Nothing is held.
    Exhausted,
}

/// What a consumer has seen who pulled until the sequence ended.
pub struct ValueTrace {
    /// The frames, in the order in which they came.
    pub frames: Seq<Outcome>,
    /// How often the future was polled.
    pub polls: nat,
}

/// What one pull by the consumer leaves behind.
pub struct ValuePulled<TFut> {
    /// Where the adapter stands after it.
    pub phase: ValuePhase<TFut>,
    /// The answer: a frame, or the end of the sequence.
    pub frame: Option<Outcome>,
    /// Whether the future was polled.
    pub polled: bool,
}

impl<TFut> ValuePhase<TFut> {
    /// The start of a pull: where the adapter stands then, and what it asks of
    /// its driver.
    pub open spec fn poll_next(self) -> (Self, Step) {
        match self {
            ValuePhase::AwaitingFuture(_) => (self, Step::PollFuture),
            ValuePhase::Exhausted => (self, Step::Answer(Polled::Ready(None))),
        }
    }

    /// The end of a pull that polled the future: where the adapter stands then,
    /// and its answer. The frame of a future that has resolved is the one frame
    /// of the sequence.
    pub open spec fn poll(self, polled: Polled<Outcome>) -> (Self, Polled<Option<Outcome>>) {
        match polled {
            Polled::Ready(frame) => (ValuePhase::Exhausted, Polled::Ready(Some(frame))),
            Polled::Pending => (self, Polled::Pending),
        }
    }

    /// One whole pull, served by a future that resolves when it is polled and
    /// whose value has the frame `frame`.
    pub open spec fn pull(self, frame: Outcome) -> ValuePulled<TFut> {
        let (asked, step) = self.poll_next();
        match step {
            Step::Answer(Polled::Ready(answer)) => ValuePulled {
                phase: asked,
                frame: answer,
                polled: false,
            },
            _ => {
                let (phase, answer) = asked.poll(Polled::Ready(frame));
                ValuePulled { phase, frame: answer->Ready_0, polled: true }
            },
        }
    }

    /// Everything that a consumer sees who pulls until the sequence ends.
    pub open spec fn run(self, frame: Outcome) -> ValueTrace
        decreases (if self is AwaitingFuture {
            1nat
        } else {
            0nat
        }),
    {
        let pulled = self.pull(frame);
        let polls = if pulled.polled { 1nat } else { 0nat };
        match pulled.frame {
            Some(first) => {
                let later = pulled.phase.run(frame);
                ValueTrace { frames: seq![first] + later.frames, polls: polls + later.polls }
            },
            None => ValueTrace { frames: seq![], polls },
        }
    }
}

/// The adapter for a future of a value: a sequence of exactly one frame, which
/// comes when the future has resolved.
///
/// The adapter owns the future and lets go of it as soon as it has resolved.
pub struct FutureSerializeFuture<TFut> {
    phase: ValuePhase<TFut>,
}

/// The adapter for a future of a fallible value: a sequence of exactly one
/// frame, which comes when the future has resolved: the value, or the error
/// of the resolver.
///
/// The adapter owns the future and lets go of it as soon as it has resolved.
pub struct FutureSerializeResultFuture<TFut> {
    phase: ValuePhase<TFut>,
}

/// Starts a pull on an adapter that stands at `phase`.
fn start<TFut>(phase: &ValuePhase<TFut>) -> (step: Step)
    ensures
        (*phase, step) == phase.poll_next(),
{
    match phase {
        ValuePhase::AwaitingFuture(_) => Step::PollFuture,
        ValuePhase::Exhausted => Step::Answer(Polled::Ready(None)),
    }
}

/// Ends a pull on an adapter that stands at `phase`.
fn complete<TFut>(phase: &mut ValuePhase<TFut>, polled: Polled<Outcome>) -> (answer: Polled<
    Option<Outcome>,
>)
    ensures
        (*final(phase), answer) == old(phase).poll(polled),
{
    match polled {
        Polled::Ready(frame) => {
            *phase = ValuePhase::Exhausted;
            Polled::Ready(Some(frame))
        },
        Polled::Pending => Polled::Pending,
    }
}

/// The future that an adapter at `phase` holds.
fn held<TFut>(phase: &mut ValuePhase<TFut>) -> (future: Option<&mut TFut>)
    ensures
        match future {
            Some(f) => *old(phase) == ValuePhase::AwaitingFuture(*f) && *final(phase)
                == ValuePhase::AwaitingFuture(*final(f)),
            None => *old(phase) is Exhausted && *final(phase) == *old(phase),
        },
{
    match phase {
        ValuePhase::AwaitingFuture(future) => Some(future),
        ValuePhase::Exhausted => None,
    }
}

impl<TFut> View for FutureSerializeFuture<TFut> {
    type V = ValuePhase<TFut>;

    /// Where the adapter stands.
    closed spec fn view(&self) -> ValuePhase<TFut> {
        self.phase
    }
}

impl<TFut> FutureSerializeFuture<TFut> {
    /// An adapter that awaits `future`.
    pub fn new(future: TFut) -> (adapter: Self)
        ensures
            adapter@ == ValuePhase::AwaitingFuture(future),
    {
        FutureSerializeFuture { phase: ValuePhase::AwaitingFuture(future) }
    }

    /// Starts a pull: the adapter asks for a poll of its future, or answers
    /// with the end once the future has resolved.
    pub fn poll_next(&self) -> (step: Step)
        ensures
            (self@, step) == self@.poll_next(),
    {
        start(&self.phase)
    }

    /// The future to poll, while it is awaited.
    pub fn future_mut(&mut self) -> (future: Option<&mut TFut>)
        ensures
            match future {
                Some(f) => old(self)@ == ValuePhase::AwaitingFuture(*f) && final(self)@
                    == ValuePhase::AwaitingFuture(*final(f)),
                None => old(self)@ is Exhausted && final(self)@ == old(self)@,
            },
    {
        held(&mut self.phase)
    }

    /// Ends a pull with what polling the future gave: nothing yet, or the value
    /// as it was serialized, whose frame is the one frame of the sequence.
    pub fn poll(&mut self, polled: Polled<Serialized>) -> (answer: Polled<Option<Outcome>>)
        requires
            old(self)@ is AwaitingFuture,
        ensures
            (final(self)@, answer) == old(self)@.poll(
                match polled {
                    Polled::Ready(value) => Polled::Ready(value_frame(value)),
                    Polled::Pending => Polled::Pending,
                },
            ),
    {
        let polled = match polled {
            Polled::Ready(value) => Polled::Ready(value_frame(value)),
            Polled::Pending => Polled::Pending,
        };
        complete(&mut self.phase, polled)
    }
}

impl<TFut> View for FutureSerializeResultFuture<TFut> {
    type V = ValuePhase<TFut>;

    /// Where the adapter stands.
    closed spec fn view(&self) -> ValuePhase<TFut> {
        self.phase
    }
}

impl<TFut> FutureSerializeResultFuture<TFut> {
    /// An adapter that awaits `future`.
    pub fn new(future: TFut) -> (adapter: Self)
        ensures
            adapter@ == ValuePhase::AwaitingFuture(future),
    {
        FutureSerializeResultFuture { phase: ValuePhase::AwaitingFuture(future) }
    }

    /// Starts a pull: the adapter asks for a poll of its future, or answers
    /// with the end once the future has resolved.
    pub fn poll_next(&self) -> (step: Step)
        ensures
            (self@, step) == self@.poll_next(),
    {
        start(&self.phase)
    }

    /// The future to poll, while it is awaited.
    pub fn future_mut(&mut self) -> (future: Option<&mut TFut>)
        ensures
            match future {
                Some(f) => old(self)@ == ValuePhase::AwaitingFuture(*f) && final(self)@
                    == ValuePhase::AwaitingFuture(*final(f)),
                None => old(self)@ is Exhausted && final(self)@ == old(self)@,
            },
    {
        held(&mut self.phase)
    }

    /// Ends a pull with what polling the future gave: nothing yet, or what the
    /// resolver returned. Its error is the frame as it stands; its value gives
    /// the frame of the value as it was serialized.
    pub fn poll(&mut self, polled: Polled<Result<Serialized, DomainError>>) -> (answer: Polled<
        Option<Outcome>,
    >)
        requires
            old(self)@ is AwaitingFuture,
        ensures
            (final(self)@, answer) == old(self)@.poll(
                match polled {
                    Polled::Ready(value) => Polled::Ready(result_frame(value)),
                    Polled::Pending => Polled::Pending,
                },
            ),
    {
        let polled = match polled {
            Polled::Ready(value) => Polled::Ready(result_frame(value)),
            Polled::Pending => Polled::Pending,
        };
        complete(&mut self.phase, polled)
    }
}

/// A future that resolves gives exactly one frame, that of its value, by one
/// poll of the future; the adapter has then ended and every later pull is
/// answered with the end.
pub proof fn lemma_future_gives_one_frame<TFut>(future: TFut, frame: Outcome)
    ensures
        ValuePhase::AwaitingFuture(future).run(frame) == (ValueTrace {
            frames: seq![frame],
            polls: 1,
        }),
        ValuePhase::AwaitingFuture(future).poll(Polled::Ready(frame)).0 is Exhausted,
        ValuePhase::<TFut>::Exhausted.poll_next() == (
            ValuePhase::<TFut>::Exhausted,
            Step::Answer(Polled::Ready(None)),
        ),
        ValuePhase::<TFut>::Exhausted.run(frame) == (ValueTrace { frames: seq![], polls: 0 }),
{
    let first = ValuePhase::AwaitingFuture(future).pull(frame);
    assert(first.phase.run(frame).frames =~= seq![]);
    assert(ValuePhase::AwaitingFuture(future).run(frame).frames =~= seq![frame]);
}

/// While the future has nothing yet, neither has the sequence, and the adapter
/// keeps the future.
pub proof fn lemma_pending_future_is_kept<TFut>(phase: ValuePhase<TFut>)
    ensures
        phase.poll(Polled::Pending) == (phase, Polled::<Option<Outcome>>::Pending),
{
}

} // verus!
