//! Events emitted by a pen or pointer input source.

use vstd::prelude::*;

verus! {

/// One pointer event, as handed to a gesture recognizer together with the
/// monotonic time at which it happened.
///
/// Only the press/release distinction matters to the recognizers here; any
/// position or pressure data travels elsewhere in the input pipeline. Every
/// kind other than [`PenEvent::Down`] and [`PenEvent::Up`] is treated
/// uniformly as "neither a press nor a release".
#[derive(Clone, Copy, Debug, PartialEq, Eq, Structural)]
pub enum PenEvent {
    /// The pen was pressed down.
    Down,
    /// The pen was lifted up.
    Up,
    /// The pen hovers near the surface without touching it.
    Proximity,
    /// A key was pressed while the pen is in use.
    KeyPressed,
    /// The ongoing interaction was cancelled.
    Cancel,
}

} // verus!
