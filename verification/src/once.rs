//! The adapter for a value that is already there.

use crate::outcome::Outcome;
use vstd::prelude::*;

verus! {

/// A sequence of exactly one frame, which is ready from the start.
pub struct Once {
    frame: Option<Outcome>,
}

impl View for Once {
    type V = Option<Outcome>;

    /// The frame that is still to come, if any.
    closed spec fn view(&self) -> Option<Outcome> {
        self.frame
    }
}

impl Once {
    /// Every frame that is still to come, in order.
    pub open spec fn frames(&self) -> Seq<Outcome> {
        match self@ {
            Some(frame) => seq![frame],
            None => seq![],
        }
    }

    /// A sequence that holds `frame` and nothing else.
    pub fn new(frame: Outcome) -> (once: Once)
        ensures
            once@ == Some(frame),
    {
        Once { frame: Some(frame) }
    }

    /// One pull: the frame at the first pull, the end of the sequence at every
    /// later one.
    pub fn poll_next(&mut self) -> (frame: Option<Outcome>)
        ensures
            frame == old(self)@,
            final(self)@ is None,
    {
        self.frame.take()
    }

    /// The bounds on the number of frames to come: exactly as many as there are.
    pub fn size_hint(&self) -> (bounds: (usize, Option<usize>))
        ensures
            bounds.0 == self.frames().len(),
            bounds.1 == Some(bounds.0),
    {
        match &self.frame {
            Some(_) => (1, Some(1)),
            None => (0, Some(0)),
        }
    }
}

} // verus!
