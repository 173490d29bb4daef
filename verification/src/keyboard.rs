//! Detection of a double tap of the Alt key.

use vstd::prelude::*;

verus! {

/// Two Alt presses closer together than this (half a second, in
/// nanoseconds) form a double tap.
pub const DOUBLE_TAP_WINDOW_NS: u64 = 500_000_000;

/// A keyboard event, as far as double-tap detection cares.
pub enum KeyEvent {
    /// The Alt key was pressed.
    AltPress,
    /// Any other event.
    Other,
}

/// Time from `since` to `now`, zero when `now` is not later.
pub open spec fn elapsed(since: u64, now: u64) -> nat {
    if now >= since {
        (now - since) as nat
    } else {
        0
    }
}

/// Whether an Alt press at `now` completes a double tap, given the time of
/// the previous Alt press, if any.
pub open spec fn completes_double_tap(last_press: Option<u64>, now: u64) -> bool {
    match last_press {
        Some(t) => elapsed(t, now) < DOUBLE_TAP_WINDOW_NS,
        None => false,
    }
}

/// Watches keyboard events for double taps of the Alt key.
pub struct DoubleTapDetector {
    last_alt_press: Option<u64>,
}

impl View for DoubleTapDetector {
    type V = Option<u64>;

    /// The time of the last Alt press, if there was one.
    closed spec fn view(&self) -> Option<u64> {
        self.last_alt_press
    }
}

impl DoubleTapDetector {
    /// A detector that has seen no Alt press yet.
    pub fn new() -> (detector: Self)
        ensures
            detector@ is None,
    {
        DoubleTapDetector { last_alt_press: None }
    }

    /// Handles `event`, seen at time `now` (in nanoseconds on a monotonic
    /// clock), while the listener is `running`. Returns whether the event
    /// completes a double tap. Every Alt press seen while running becomes
    /// the last press, including one that completes a double tap; events
    /// seen while not running are ignored.
    pub fn on_key_event(&mut self, running: bool, event: KeyEvent, now: u64) -> (double_tap: bool)
        ensures
            running && event is AltPress ==> {
                &&& double_tap == completes_double_tap(old(self)@, now)
                &&& final(self)@ == Some(now)
            },
            !(running && event is AltPress) ==> {
                &&& !double_tap
                &&& final(self)@ == old(self)@
            },
    {
        if !running {
            return false;
        }
        match event {
            KeyEvent::AltPress => {
                let double_tap = match self.last_alt_press {
                    Some(last) => {
                        let gap = if now >= last { now - last } else { 0 };
                        gap < DOUBLE_TAP_WINDOW_NS
                    },
                    None => false,
                };
                self.last_alt_press = Some(now);
                double_tap
            },
            KeyEvent::Other => false,
        }
    }
}

/// The first Alt press never completes a double tap, and a second press
/// less than half a second after the previous one always does.
pub proof fn lemma_double_tap(first: u64, second: u64)
    requires
        first <= second,
        second - first < DOUBLE_TAP_WINDOW_NS,
    ensures
        !completes_double_tap(None, first),
        completes_double_tap(Some(first), second),
{
}

/// Presses at least half a second apart never complete a double tap.
pub proof fn lemma_slow_presses(first: u64, second: u64)
    requires
        first <= second,
        second - first >= DOUBLE_TAP_WINDOW_NS,
    ensures
        !completes_double_tap(Some(first), second),
{
}

} // verus!
