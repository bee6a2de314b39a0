//! Click gestures.

use vstd::prelude::*;

use crate::gesturebehaviour::GestureBehaviour;
use crate::penevents::PenEvent;
use crate::time::{spec_elapsed, Duration, Instant, NANOS_PER_MILLI};

verus! {

/// The double click timeout used when none is configured, in milliseconds.
pub const DEFAULT_TIMEOUT_MILLIS: u64 = 400;

/// Double click gesture state.
#[derive(Clone, Copy, Debug, PartialEq, Eq, Structural)]
pub enum GestureDoubleClickState {
    /// Idle: no pending click.
    Idle,
    /// One press observed, no matching release yet.
    ///
    /// Holds the time of the press.
    OneDown(Instant),
    /// One press followed by one release.
    ///
    /// Holds the time of the release.
    OneDownOneUp(Instant),
    /// Gesture recognized.
    Recognized,
}

impl Default for GestureDoubleClickState {
    fn default() -> (s: Self)
        ensures
            s == GestureDoubleClickState::Idle,
    {
        GestureDoubleClickState::Idle
    }
}

/// The double click transition table: the state that follows `state` when
/// `event` arrives at time `now`, under the recognition window `timeout`.
///
/// Presses and releases drive the automaton; any other event kind resets it
/// to [`GestureDoubleClickState::Idle`], as does a press or release that the
/// table has no rule for (notably any event arriving in
/// [`GestureDoubleClickState::Recognized`]).
pub open spec fn double_click_step(
    state: GestureDoubleClickState,
    timeout: Duration,
    event: PenEvent,
    now: Instant,
) -> GestureDoubleClickState {
    match (state, event) {
        (GestureDoubleClickState::Idle, PenEvent::Down) => GestureDoubleClickState::OneDown(now),
        (GestureDoubleClickState::OneDown(t0), PenEvent::Down) => GestureDoubleClickState::OneDown(
            t0,
        ),
        (GestureDoubleClickState::OneDownOneUp(t1), PenEvent::Down) => if spec_elapsed(now, t1)
            < timeout.nanos {
            GestureDoubleClickState::Recognized
        } else {
            GestureDoubleClickState::Idle
        },
        (GestureDoubleClickState::OneDown(t0), PenEvent::Up) => if spec_elapsed(now, t0)
            < timeout.nanos {
            GestureDoubleClickState::OneDownOneUp(now)
        } else {
            GestureDoubleClickState::Idle
        },
        (GestureDoubleClickState::OneDownOneUp(t1), PenEvent::Up) => GestureDoubleClickState::OneDownOneUp(
            t1,
        ),
        (_, _) => GestureDoubleClickState::Idle,
    }
}

/// A double click gesture.
///
/// Recognizes two press/release cycles in quick succession: the time from
/// the first press to its release, and from that release to the second
/// press, must each fall strictly under `timeout`.
#[derive(Clone, Debug)]
pub struct GestureDoubleClick {
    /// The recognition window applied to both press/release gaps.
    pub timeout: Duration,
    /// The automaton's current state.
    pub state: GestureDoubleClickState,
}

impl Default for GestureDoubleClick {
    fn default() -> (g: Self)
        ensures
            g.timeout.nanos == DEFAULT_TIMEOUT_MILLIS * NANOS_PER_MILLI,
            g.state == GestureDoubleClickState::Idle,
    {
        GestureDoubleClick {
            timeout: Duration::from_millis(DEFAULT_TIMEOUT_MILLIS),
            state: GestureDoubleClickState::default(),
        }
    }
}

impl GestureBehaviour for GestureDoubleClick {
    open spec fn gesture_after(self, event: PenEvent, now: Instant) -> Self {
        GestureDoubleClick {
            timeout: self.timeout,
            state: double_click_step(self.state, self.timeout, event, now),
        }
    }

    open spec fn gesture_recognized(self) -> bool {
        self.state is Recognized
    }

    fn handle_event(&mut self, event: PenEvent, now: Instant) {
        match (self.state, event) {
            (GestureDoubleClickState::Idle, PenEvent::Down) => {
                self.state = GestureDoubleClickState::OneDown(now);
            },
            (GestureDoubleClickState::OneDown(_), PenEvent::Down) => {},
            (GestureDoubleClickState::OneDownOneUp(then), PenEvent::Down) => {
                if now.duration_since(then).nanos < self.timeout.nanos {
                    self.state = GestureDoubleClickState::Recognized;
                } else {
                    self.state = GestureDoubleClickState::Idle;
                }
            },
            (GestureDoubleClickState::OneDown(then), PenEvent::Up) => {
                if now.duration_since(then).nanos < self.timeout.nanos {
                    self.state = GestureDoubleClickState::OneDownOneUp(now);
                } else {
                    self.state = GestureDoubleClickState::Idle;
                }
            },
            (GestureDoubleClickState::OneDownOneUp(_), PenEvent::Up) => {},
            (_, _) => {
                self.state = GestureDoubleClickState::Idle;
            },
        }
    }

    fn recognized(&self) -> (r: bool) {
        self.state == GestureDoubleClickState::Recognized
    }
}

/// Two qualifying press/release cycles in quick succession are recognized:
/// from idle, a press at `t0`, a release `d` nanoseconds later and a second
/// press another `d` nanoseconds after that end in
/// [`GestureDoubleClickState::Recognized`] whenever `d` falls strictly under
/// the timeout.
pub proof fn lemma_quick_sequence_recognized(timeout: Duration, t0: Instant, d: u128)
    requires
        d < timeout.nanos,
        t0.nanos + 2 * d <= u128::MAX,
    ensures
        ({
            let t1 = Instant { nanos: (t0.nanos + d) as u128 };
            let t2 = Instant { nanos: (t0.nanos + d + d) as u128 };
            let s1 = double_click_step(GestureDoubleClickState::Idle, timeout, PenEvent::Down, t0);
            let s2 = double_click_step(s1, timeout, PenEvent::Up, t1);
            double_click_step(s2, timeout, PenEvent::Down, t2) is Recognized
        }),
{
}

/// A release that arrives `d` nanoseconds after the first press, with `d` at
/// least the timeout, resets the automaton to
/// [`GestureDoubleClickState::Idle`] instead of letting it advance.
pub proof fn lemma_slow_first_gap_resets(timeout: Duration, t0: Instant, d: u128)
    requires
        d >= timeout.nanos,
        t0.nanos + d <= u128::MAX,
    ensures
        ({
            let t1 = Instant { nanos: (t0.nanos + d) as u128 };
            let s1 = double_click_step(GestureDoubleClickState::Idle, timeout, PenEvent::Down, t0);
            double_click_step(s1, timeout, PenEvent::Up, t1) is Idle
        }),
{
}

/// A second press that arrives `d2` nanoseconds after the release, with `d2`
/// at least the timeout, resets the automaton to
/// [`GestureDoubleClickState::Idle`] instead of recognizing, even though the
/// first gap `d1` qualified.
pub proof fn lemma_slow_second_gap_resets(timeout: Duration, t0: Instant, d1: u128, d2: u128)
    requires
        d1 < timeout.nanos,
        d2 >= timeout.nanos,
        t0.nanos + d1 + d2 <= u128::MAX,
    ensures
        ({
            let t1 = Instant { nanos: (t0.nanos + d1) as u128 };
            let t2 = Instant { nanos: (t0.nanos + d1 + d2) as u128 };
            let s1 = double_click_step(GestureDoubleClickState::Idle, timeout, PenEvent::Down, t0);
            let s2 = double_click_step(s1, timeout, PenEvent::Up, t1);
            double_click_step(s2, timeout, PenEvent::Down, t2) is Idle
        }),
{
}

/// A repeated press while one press is already pending changes nothing: the
/// pending press keeps its original timestamp, whenever the repeat arrives.
pub proof fn lemma_repeated_down_ignored(timeout: Duration, t0: Instant, now: Instant)
    ensures
        double_click_step(GestureDoubleClickState::OneDown(t0), timeout, PenEvent::Down, now)
            == GestureDoubleClickState::OneDown(t0),
{
}

/// A repeated release after a press/release pair changes nothing: the pair
/// keeps its original release timestamp, whenever the repeat arrives.
pub proof fn lemma_repeated_up_ignored(timeout: Duration, t1: Instant, now: Instant)
    ensures
        double_click_step(GestureDoubleClickState::OneDownOneUp(t1), timeout, PenEvent::Up, now)
            == GestureDoubleClickState::OneDownOneUp(t1),
{
}

/// Any event that is neither a press nor a release forces the automaton to
/// [`GestureDoubleClickState::Idle`], from every state.
pub proof fn lemma_other_event_resets(
    state: GestureDoubleClickState,
    timeout: Duration,
    event: PenEvent,
    now: Instant,
)
    requires
        !(event is Down),
        !(event is Up),
    ensures
        double_click_step(state, timeout, event, now) is Idle,
{
}

impl GestureDoubleClick {
    /// Specify a double click timeout. It is the window that each gap of the
    /// press, release, press sequence must fall strictly under.
    pub fn with_timeout(self, timeout: Duration) -> (g: Self)
        ensures
            g.timeout == timeout,
            g.state == self.state,
    {
        GestureDoubleClick { timeout, state: self.state }
    }
}

} // verus!
