//! Recognition of pointer gestures from a stream of timestamped pen events.
//!
//! The central piece is [`clicks::GestureDoubleClick`], a timeout-bounded
//! finite-state machine that watches press/release timing and reports when a
//! double click has happened. Recognizers plug into an input pipeline through
//! the [`gesturebehaviour::GestureBehaviour`] trait.

pub mod clicks;
pub mod gesturebehaviour;
pub mod penevents;
pub mod time;

pub use crate::clicks::GestureDoubleClick;
pub use crate::gesturebehaviour::GestureBehaviour;
