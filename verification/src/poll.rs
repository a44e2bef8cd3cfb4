//! What passes between an adapter and whoever drives it.

use crate::outcome::Outcome;
use vstd::prelude::*;

verus! {

/// What polling a future or a stream gave.
#[derive(Debug)]
pub enum Polled<T> {
    /// It had this ready.
    Ready(T),
    /// It has nothing yet and will wake the consumer.
    Pending,
}

/// What an adapter asks of its driver in the course of one pull.
#[derive(Debug)]
pub enum Step {
    /// Poll the future that the adapter holds and report what it gave.
    PollFuture,
    /// Poll the stream that the adapter holds and report what it gave.
    PollStream,
    /// Answer the consumer with this: a frame, the end of the sequence, or
    /// nothing yet.
    Answer(Polled<Option<Outcome>>),
}

} // verus!
