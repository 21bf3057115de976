//! The click-to-toggle animation driver.
//!
//! The widget owns one piece of mutable state: an `active` flag that a mouse
//! click flips, plus knowledge of whether the periodic update task is
//! currently scheduled (`armed`). A click that turns the animation on arms
//! the task; a click that turns it off leaves the task scheduled, and the
//! very next tick observes the cleared flag, shows the first frame, and
//! tells the host to stop rescheduling it. The flag is read once per tick, so
//! a click between that read and the render is only observed on the next
//! tick.

use vstd::prelude::*;

use crate::frame::frame_index;
use crate::frame::spec_frame_index;
use crate::frame::FRAME_COUNT;

verus! {

/// What a tick of the periodic task tells the host's scheduler: keep
/// invoking the task every interval, or drop it.
#[derive(Clone, Copy, Debug, PartialEq, Eq, Structural)]
pub enum Signal {
    Continue,
    Stop,
}

/// What one tick of the periodic task decided: the frame to display and the
/// scheduling signal to hand back to the host.
#[derive(Clone, Copy, Debug, PartialEq, Eq, Structural)]
pub struct TickOutcome {
    /// Index of the pre-decoded frame to display.
    pub frame: usize,
    /// Whether the task reschedules itself.
    pub signal: Signal,
}

/// The animation driver's state: the click-toggled flag and whether the
/// periodic task is currently scheduled.
#[derive(Clone, Copy, Debug, PartialEq, Eq, Structural)]
pub struct Driver {
    /// True while the animation is running; flipped by every click.
    pub active: bool,
    /// True while a periodic task is scheduled with the host.
    pub armed: bool,
}

impl Driver {
    /// A running animation always has its periodic task scheduled. (An
    /// armed task with the flag cleared is a valid transient: it stops
    /// itself at its next tick.)
    pub open spec fn wf(self) -> bool {
        self.active ==> self.armed
    }

    /// The state before any click: stopped, no task scheduled.
    pub open spec fn initial() -> Driver {
        Driver { active: false, armed: false }
    }

    /// The frame the widget shows in this state at clock time `time_us`:
    /// time-derived while running, the first frame otherwise.
    pub open spec fn spec_frame(self, time_us: u64) -> int {
        if self.active {
            spec_frame_index(time_us)
        } else {
            0
        }
    }

    /// The state after a click: the flag flips, and a click that starts the
    /// animation arms the periodic task.
    pub open spec fn spec_toggle(self) -> Driver {
        Driver { active: !self.active, armed: self.armed || !self.active }
    }

    /// The state after one tick of the periodic task: a tick that observes
    /// the cleared flag removes the task from the schedule.
    pub open spec fn spec_tick(self) -> Driver {
        Driver { active: self.active, armed: self.active }
    }

    /// The scheduling signal a tick hands back: continue while the flag is
    /// set, stop once it is cleared.
    pub open spec fn spec_signal(self) -> Signal {
        if self.active {
            Signal::Continue
        } else {
            Signal::Stop
        }
    }

    /// Creates the driver in its starting state: animation stopped, periodic
    /// task not scheduled, first frame shown at every clock time.
    pub fn new() -> (d: Driver)
        ensures
            d == Driver::initial(),
            !d.active,
            !d.armed,
            forall|t: u64| d.spec_frame(t) == 0,
            d.wf(),
    {
        Driver { active: false, armed: false }
    }

    /// Handles a mouse click: flips the `active` flag. Returns true exactly
    /// when the click started the animation, in which case the caller must
    /// schedule the periodic task with the host.
    pub fn toggle(&mut self) -> (arm: bool)
        requires
            old(self).wf(),
        ensures
            *final(self) == old(self).spec_toggle(),
            final(self).active == !old(self).active,
            arm == final(self).active,
            final(self).wf(),
    {
        self.active = !self.active;
        if self.active {
            self.armed = true;
        }
        self.active
    }

    /// The frame to display in the current state at clock time `time_us`.
    /// Always within the pre-decoded frame set.
    pub fn current_frame(&self, time_us: u64) -> (f: usize)
        ensures
            f == self.spec_frame(time_us),
            f < FRAME_COUNT,
    {
        if self.active {
            frame_index(time_us)
        } else {
            0
        }
    }

    /// One tick of the periodic task at clock time `time_us`: reads the flag
    /// once, picks the frame to display, and decides whether the task keeps
    /// rescheduling itself. A tick that observes the cleared flag shows the
    /// first frame and removes the task.
    pub fn tick(&mut self, time_us: u64) -> (t: TickOutcome)
        requires
            old(self).wf(),
            old(self).armed,
        ensures
            *final(self) == old(self).spec_tick(),
            t.frame == old(self).spec_frame(time_us),
            t.frame < FRAME_COUNT,
            t.signal == old(self).spec_signal(),
            old(self).active ==> t.signal is Continue && final(self).armed,
            !old(self).active ==> t.frame == 0 && t.signal is Stop && !final(self).armed,
            final(self).active == old(self).active,
            final(self).wf(),
    {
        let now_active = self.active;
        let frame = self.current_frame(time_us);
        if now_active {
            TickOutcome { frame, signal: Signal::Continue }
        } else {
            self.armed = false;
            TickOutcome { frame, signal: Signal::Stop }
        }
    }
}

/// A click while the animation is stopped starts it: the flag is set, the
/// periodic task is armed, and a tick in the new state shows the
/// time-derived frame and keeps the task scheduled.
pub proof fn lemma_click_starts(d: Driver, time_us: u64)
    requires
        d.wf(),
        !d.active,
    ensures
        d.spec_toggle().active,
        d.spec_toggle().armed,
        d.spec_toggle().spec_frame(time_us) == spec_frame_index(time_us),
        d.spec_toggle().spec_signal() is Continue,
        d.spec_toggle().spec_tick() == d.spec_toggle(),
{
}

/// A click while the animation is running stops it: the flag is cleared at
/// once, and the very next tick shows the first frame, signals the host to
/// stop, and removes the task from the schedule.
pub proof fn lemma_click_stops(d: Driver, time_us: u64)
    requires
        d.wf(),
        d.active,
    ensures
        !d.spec_toggle().active,
        d.spec_toggle().spec_frame(time_us) == 0,
        d.spec_toggle().spec_signal() is Stop,
        !d.spec_toggle().spec_tick().armed,
        !d.spec_toggle().spec_tick().active,
{
}

/// Clicks alternate strictly between running and stopped: each click negates
/// the flag, so any two consecutive clicks restore it.
pub proof fn lemma_clicks_alternate(d: Driver)
    requires
        d.wf(),
    ensures
        d.spec_toggle().active == !d.active,
        d.spec_toggle().spec_toggle().active == d.active,
{
}

/// From the initial state, clicking twice restores the initial visual state:
/// the first frame is shown at every clock time, and the pending tick stops
/// the task and leaves the state exactly as it began.
pub proof fn lemma_double_click_restores_initial(time_us: u64)
    ensures
        Driver::initial().spec_toggle().spec_toggle().spec_frame(time_us) == 0,
        Driver::initial().spec_toggle().spec_toggle().spec_signal() is Stop,
        Driver::initial().spec_toggle().spec_toggle().spec_tick() == Driver::initial(),
{
}

} // verus!
