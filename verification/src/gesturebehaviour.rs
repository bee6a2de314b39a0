//! The capability contract every gesture recognizer offers.

use vstd::prelude::*;

use crate::penevents::PenEvent;
use crate::time::Instant;

verus! {

/// Behaves like a gesture.
///
/// A recognizer consumes a stream of timestamped pen events, one call of
/// [`GestureBehaviour::handle_event`] per event in arrival order, and reports
/// through [`GestureBehaviour::recognized`] whether its gesture was just
/// recognized. Each implementor pins its behaviour down with the two spec
/// functions, so a caller knows exactly which state a recognizer is in after
/// any sequence of events.
pub trait GestureBehaviour: Sized {
    /// The recognizer that results from consuming `event` at time `now`.
    spec fn gesture_after(self, event: PenEvent, now: Instant) -> Self;

    /// Whether the recognizer currently reports its gesture as recognized.
    spec fn gesture_recognized(self) -> bool;

    /// Feed the gesture with a new pen event, observed at monotonic time
    /// `now`.
    ///
    /// Events must be fed in arrival order, none skipped or reordered: a
    /// recognizer is order-sensitive.
    fn handle_event(&mut self, event: PenEvent, now: Instant)
        ensures
            *final(self) == old(self).gesture_after(event, now),
    ;

    /// Whether a gesture was recognized.
    ///
    /// Check this after every single event handled, else a recognition may
    /// be missed: recognition is not latched, and further events can move
    /// the recognizer on.
    fn recognized(&self) -> (r: bool)
        ensures
            r == self.gesture_recognized(),
    ;
}

} // verus!
