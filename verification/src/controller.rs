//! Decision logic of the three event handlers.
//!
//! A [`Controller`] models what the user observes: the offset counter,
//! the number shown on the large label, and whether the done button
//! carries its affirmative style class. The surrounding program reads
//! the wall clock, hands each handler the elapsed seconds since
//! startup, and mirrors the resulting state onto the widgets; every
//! decision is taken here.

use crate::timer::Timer;
use vstd::prelude::*;

verus! {

/// Seconds that must accumulate before the done button is highlighted
/// and a done press may close the window.
pub const THRESHOLD_SECS: u64 = 20;

/// The observable state of the widget: the offset counter, the value
/// on the display label, and whether the done button carries the
/// affirmative style class.
pub struct Controller {
    pub timer: Timer,
    pub displayed: u64,
    pub style_applied: bool,
}

/// The state a tick at `elapsed` seconds leaves behind: the display
/// shows the seconds since the last reset, and the affirmative style
/// is applied once they reach the threshold (and never removed by a
/// tick).
pub open spec fn spec_tick(c: Controller, elapsed: u64) -> Controller {
    Controller {
        timer: c.timer,
        displayed: (elapsed - c.timer.time) as u64,
        style_applied: c.style_applied || elapsed - c.timer.time >= THRESHOLD_SECS,
    }
}

/// The state a reset at `elapsed` seconds leaves behind: the offset
/// becomes the current elapsed sample, the display drops to zero, and
/// the affirmative style is removed when the seconds accumulated since
/// the previous reset had reached the threshold.
pub open spec fn spec_reset(c: Controller, elapsed: u64) -> Controller {
    Controller {
        timer: Timer { time: elapsed },
        displayed: 0,
        style_applied: c.style_applied && elapsed - c.timer.time < THRESHOLD_SECS,
    }
}

/// Whether a done press at `elapsed` seconds closes the window: only
/// once the seconds since the last reset reach the threshold.
pub open spec fn spec_done(c: Controller, elapsed: u64) -> bool {
    elapsed - c.timer.time >= THRESHOLD_SECS
}

impl Controller {
    /// At startup there is no offset, the label shows `0`, and the done
    /// button is unstyled.
    pub fn new() -> (c: Controller)
        ensures
            c.timer.time == 0,
            c.displayed == 0,
            !c.style_applied,
    {
        Controller { timer: Timer::new(), displayed: 0, style_applied: false }
    }

    /// The periodic tick handler. `elapsed` is the whole seconds since
    /// startup; the offset never runs ahead of it, since every offset
    /// is a sample of an earlier elapsed reading.
    pub fn tick(&mut self, elapsed: u64)
        requires
            old(self).timer.time <= elapsed,
        ensures
            *final(self) == spec_tick(*old(self), elapsed),
            final(self).displayed == elapsed - old(self).timer.time,
            final(self).displayed >= THRESHOLD_SECS ==> final(self).style_applied,
    {
        let seconds = elapsed - self.timer.get();
        self.displayed = seconds;
        if seconds >= THRESHOLD_SECS {
            self.style_applied = true;
        }
    }

    /// The reset handler: zero the display, remember the current
    /// elapsed sample as the new offset, and take the affirmative
    /// style off the done button when the count it announced has just
    /// been discarded.
    pub fn reset(&mut self, elapsed: u64)
        requires
            old(self).timer.time <= elapsed,
        ensures
            *final(self) == spec_reset(*old(self), elapsed),
            final(self).displayed == 0,
            final(self).timer.time == elapsed,
    {
        let seconds = elapsed - self.timer.get();
        self.displayed = 0;
        self.timer.set(elapsed);
        if seconds >= THRESHOLD_SECS {
            self.style_applied = false;
        }
    }

    /// The done handler: report whether the press closes the window,
    /// which it does exactly when the seconds since the last reset
    /// have reached the threshold. Below it the press is ignored.
    pub fn done(&self, elapsed: u64) -> (quit: bool)
        requires
            self.timer.time <= elapsed,
        ensures
            quit == spec_done(*self, elapsed),
            quit == (elapsed - self.timer.time >= THRESHOLD_SECS),
    {
        elapsed - self.timer.get() >= THRESHOLD_SECS
    }
}

/// Law: applying the affirmative style is idempotent. A second tick at
/// or past the threshold leaves exactly the state the first one
/// produced; in particular the style class is unchanged by the repeat.
pub proof fn lemma_style_idempotent(c: Controller, elapsed: u64)
    requires
        c.timer.time <= elapsed,
        elapsed - c.timer.time >= THRESHOLD_SECS,
    ensures
        spec_tick(c, elapsed).style_applied,
        spec_tick(spec_tick(c, elapsed), elapsed) == spec_tick(c, elapsed),
{
}

/// Law: immediately after any reset the displayed value is zero.
pub proof fn lemma_reset_displays_zero(c: Controller, elapsed: u64)
    ensures
        spec_reset(c, elapsed).displayed == 0,
{
}

} // verus!
