//! The cooperative multi-rate scheduling loop: one single-threaded
//! iteration body that polls the sensor source at its own cadence,
//! redraws at another, and drains input on every pass, so no part
//! starves the others indefinitely. Within one iteration the order is
//! fixed: poll, then render, then input.
//!
//! A failed poll never stops the loop: the previous snapshot is kept
//! and marked stale, and rendering goes on with the last-known values.

use vstd::prelude::*;

use crate::counter::Counter;
use crate::logs::Logs;
use crate::snapshot::TelemetrySnapshot;
use crate::window::{push_model, TimeSeriesWindow};

verus! {

/// Milliseconds between sensor polls (5 Hz).
pub const POLL_INTERVAL_MS: u64 = 200;

/// Milliseconds between redraws (about 30 Hz).
pub const RENDER_INTERVAL_MS: u64 = 33;

/// Milliseconds the loop idles per pass to avoid busy-spinning.
pub const IDLE_SLEEP_MS: u64 = 1;

/// Samples held by the frequency strip chart.
pub const CHART_CAPACITY: usize = 10;

#[derive(Clone, Copy, PartialEq, Eq, Structural, Debug)]
pub enum SchedulerState {
    Running,
    Exiting,
}

/// Logical key of an input event; anything unbound maps to `Other`.
#[derive(Clone, Copy, PartialEq, Eq, Structural, Debug)]
pub enum Key {
    Quit,
    Up,
    Down,
    Other,
}

#[derive(Clone, Copy, PartialEq, Eq, Structural, Debug)]
pub enum KeyKind {
    Press,
    Repeat,
    Release,
}

/// A decoded input event: only `Press` events are acted on.
#[derive(Clone, Copy, PartialEq, Eq, Structural, Debug)]
pub struct KeyEvent {
    pub key: Key,
    pub kind: KeyKind,
}

/// What one pass of the iteration body did.
#[derive(Clone, Copy, PartialEq, Eq, Structural, Debug)]
pub struct TickOutcome {
    pub polled: bool,
    pub rendered: bool,
}

/// A cadence fires when at least `interval` ms have passed since it
/// last fired (a monotonic clock never runs backwards, but this is
/// total either way: an earlier `now` is simply not due).
pub open spec fn spec_due(now: int, last: int, interval: int) -> bool {
    now >= last + interval
}

/// All state owned by the scheduling loop. The collaborators that
/// fetch readings, paint a frame and decode key presses live outside;
/// the loop only records their results.
pub struct TelemetryScheduler {
    pub state: SchedulerState,
    pub last_poll_ms: u64,
    pub last_render_ms: u64,
    pub window: TimeSeriesWindow,
    pub counter: Counter,
    pub logs: Logs,
    pub snapshot: TelemetrySnapshot,
    /// True while `snapshot` is older than the latest poll tick
    /// (no successful fetch yet, or the latest fetch failed).
    pub stale: bool,
}

impl TelemetryScheduler {
    pub open spec fn wf(&self) -> bool {
        self.window.wf()
    }

    pub fn new(start_ms: u64) -> (r: Self)
        ensures
            r.wf(),
            r.state == SchedulerState::Running,
            r.last_poll_ms == start_ms,
            r.last_render_ms == start_ms,
            r.window@ == crate::window::empty_model(CHART_CAPACITY as nat),
            r.counter.count == 0,
            r.logs.y_scroll == 0,
            r.stale,
    {
        Self {
            state: SchedulerState::Running,
            last_poll_ms: start_ms,
            last_render_ms: start_ms,
            window: TimeSeriesWindow::new(CHART_CAPACITY),
            counter: Counter::new("X"),
            logs: Logs::new("Logs"),
            snapshot: TelemetrySnapshot::new(),
            stale: true,
        }
    }

    /// Whether this pass is a poll tick.
    pub fn poll_due(&self, now: u64) -> (r: bool)
        ensures
            r == spec_due(now as int, self.last_poll_ms as int, POLL_INTERVAL_MS as int),
    {
        now.saturating_sub(self.last_poll_ms) >= POLL_INTERVAL_MS
    }

    /// Whether this pass is a render tick.
    pub fn render_due(&self, now: u64) -> (r: bool)
        ensures
            r == spec_due(now as int, self.last_render_ms as int, RENDER_INTERVAL_MS as int),
    {
        now.saturating_sub(self.last_render_ms) >= RENDER_INTERVAL_MS
    }

    /// Record the outcome of a poll tick. A fresh reading replaces the
    /// snapshot wholesale and feeds the frequency chart; a failed poll
    /// keeps the previous snapshot, marks it stale and touches nothing
    /// else, so the loop survives sensor errors.
    pub fn record_poll(&mut self, now: u64, reading: Option<TelemetrySnapshot>)
        requires
            old(self).wf(),
            old(self).window@.x_end < u64::MAX,
        ensures
            final(self).wf(),
            final(self).last_poll_ms == now,
            reading matches Some(s) ==> {
                &&& final(self).snapshot == s
                &&& !final(self).stale
                &&& final(self).window@ == push_model(old(self).window@, s.freq_cur_centi_ghz)
            },
            reading is None ==> {
                &&& final(self).snapshot == old(self).snapshot
                &&& final(self).stale
                &&& final(self).window@ == old(self).window@
            },
            final(self).state == old(self).state,
            final(self).counter == old(self).counter,
            final(self).logs == old(self).logs,
            final(self).last_render_ms == old(self).last_render_ms,
    {
        match reading {
            Some(s) => {
                self.window.push(s.freq_cur_centi_ghz);
                self.snapshot = s;
                self.stale = false;
            },
            None => {
                self.stale = true;
            },
        }
        self.last_poll_ms = now;
    }

    /// Record that a frame was just painted.
    pub fn record_render(&mut self, now: u64)
        ensures
            *final(self) == (TelemetryScheduler { last_render_ms: now, ..*old(self) }),
    {
        self.last_render_ms = now;
    }

    /// Dispatch one input event: the quit key requests termination,
    /// up and down drive the counter, and everything else, as well as
    /// repeats and releases, is ignored.
    pub fn handle_key_event(&mut self, event: KeyEvent)
        ensures
            final(self).state == if event.kind is Press && event.key is Quit {
                SchedulerState::Exiting
            } else {
                old(self).state
            },
            final(self).counter.count == if event.kind is Press && event.key is Up {
                crate::counter::spec_increase_n(old(self).counter.count, 1)
            } else if event.kind is Press && event.key is Down {
                crate::counter::spec_decrease_n(old(self).counter.count, 1)
            } else {
                old(self).counter.count
            },
            final(self).counter.title == old(self).counter.title,
            final(self).last_poll_ms == old(self).last_poll_ms,
            final(self).last_render_ms == old(self).last_render_ms,
            final(self).window == old(self).window,
            final(self).logs == old(self).logs,
            final(self).snapshot == old(self).snapshot,
            final(self).stale == old(self).stale,
    {
        proof {
            reveal_with_fuel(crate::counter::spec_increase_n, 2);
            reveal_with_fuel(crate::counter::spec_decrease_n, 2);
        }
        if matches!(event.kind, KeyKind::Press) {
            match event.key {
                Key::Quit => { self.exit(); },
                Key::Up => { self.counter.increase_counter(); },
                Key::Down => { self.counter.decrease_counter(); },
                Key::Other => {},
            }
        }
    }

    /// Request termination: the loop ends after the current pass.
    pub fn exit(&mut self)
        ensures
            *final(self) == (TelemetryScheduler { state: SchedulerState::Exiting, ..*old(self) }),
    {
        self.state = SchedulerState::Exiting;
    }

    pub fn is_exiting(&self) -> (r: bool)
        ensures
            r == (self.state is Exiting),
    {
        matches!(self.state, SchedulerState::Exiting)
    }

    /// One pass of the loop body, with the collaborators' results
    /// handed in: `reading` is the sensor fetch made for this pass
    /// (consulted only when the poll cadence fired) and `event` the
    /// pending input event, if any. Poll happens before render, render
    /// before input.
    pub fn tick(&mut self, now: u64, reading: Option<TelemetrySnapshot>, event: Option<KeyEvent>)
        -> (o: TickOutcome)
        requires
            old(self).wf(),
            old(self).window@.x_end < u64::MAX,
        ensures
            final(self).wf(),
            o.polled == spec_due(now as int, old(self).last_poll_ms as int, POLL_INTERVAL_MS as int),
            o.rendered == spec_due(
                now as int,
                old(self).last_render_ms as int,
                RENDER_INTERVAL_MS as int,
            ),
            final(self).last_poll_ms == if o.polled {
                now
            } else {
                old(self).last_poll_ms
            },
            final(self).last_render_ms == if o.rendered {
                now
            } else {
                old(self).last_render_ms
            },
            reading matches Some(s) ==> o.polled ==> {
                &&& final(self).snapshot == s
                &&& !final(self).stale
                &&& final(self).window@ == push_model(old(self).window@, s.freq_cur_centi_ghz)
            },
            reading is None ==> o.polled ==> {
                &&& final(self).snapshot == old(self).snapshot
                &&& final(self).stale
                &&& final(self).window@ == old(self).window@
            },
            !o.polled ==> {
                &&& final(self).snapshot == old(self).snapshot
                &&& final(self).stale == old(self).stale
                &&& final(self).window@ == old(self).window@
            },
            final(self).state == if event matches Some(e) && e.kind is Press && e.key is Quit {
                SchedulerState::Exiting
            } else {
                old(self).state
            },
            final(self).counter.count == if event matches Some(e) && e.kind is Press
                && e.key is Up {
                crate::counter::spec_increase_n(old(self).counter.count, 1)
            } else if event matches Some(e) && e.kind is Press && e.key is Down {
                crate::counter::spec_decrease_n(old(self).counter.count, 1)
            } else {
                old(self).counter.count
            },
            final(self).counter.title == old(self).counter.title,
            final(self).logs == old(self).logs,
    {
        let polled = self.poll_due(now);
        if polled {
            self.record_poll(now, reading);
        }
        let rendered = self.render_due(now);
        if rendered {
            self.record_render(now);
        }
        if let Some(e) = event {
            self.handle_key_event(e);
        }
        TickOutcome { polled, rendered }
    }
}

} // verus!
