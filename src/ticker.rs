//! The decisions of the background ticker: whether a start request spawns
//! the periodic task, and whether the task goes on at a tick boundary.
use vstd::prelude::*;

verus! {

/// Period of the ticker, milliseconds.
pub const UPDATE_INTERVAL_MS: u64 = 50;

#[derive(Clone, Copy, Debug, PartialEq, Eq, Structural)]
pub enum TickerPhase {
    /// No task was ever started.
    Idle,
    /// The task runs and goes on at its next tick.
    Running,
    /// A stop was requested; the task still runs until its next tick.
    Stopping,
    /// The task has ended.
    Stopped,
}

/// A periodic task exists in this phase.
pub open spec fn task_active(p: TickerPhase) -> bool {
    p is Running || p is Stopping
}

/// Lifecycle of the single periodic task.
pub struct Ticker {
    phase: TickerPhase,
}

impl View for Ticker {
    type V = TickerPhase;

    closed spec fn view(&self) -> TickerPhase {
        self.phase
    }
}

impl Ticker {
    pub fn new() -> (t: Ticker)
        ensures
            t@ is Idle,
    {
        Ticker { phase: TickerPhase::Idle }
    }

    pub fn phase(&self) -> (p: TickerPhase)
        ensures
            p == self@,
    {
        self.phase
    }

    /// A start request. Returns whether the caller must spawn the task: only
    /// when none is active, so at most one ever runs. A task that was asked
    /// to stop but has not yet seen it simply goes on.
    pub fn request_start(&mut self) -> (spawn: bool)
        ensures
            spawn == !task_active(old(self)@),
            final(self)@ is Running,
    {
        let spawn = match self.phase {
            TickerPhase::Idle | TickerPhase::Stopped => true,
            TickerPhase::Running | TickerPhase::Stopping => false,
        };
        self.phase = TickerPhase::Running;
        spawn
    }

    /// A stop request: a running task ends at its next tick boundary.
    pub fn request_stop(&mut self)
        ensures
            final(self)@ == (if old(self)@ is Running {
                TickerPhase::Stopping
            } else {
                old(self)@
            }),
    {
        if let TickerPhase::Running = self.phase {
            self.phase = TickerPhase::Stopping;
        }
    }

    /// What the task decides at a tick boundary: go on while running; after
    /// a stop request, end.
    pub fn on_tick(&mut self) -> (go_on: bool)
        ensures
            go_on == (old(self)@ is Running),
            final(self)@ == (if old(self)@ is Stopping {
                TickerPhase::Stopped
            } else {
                old(self)@
            }),
    {
        match self.phase {
            TickerPhase::Running => true,
            TickerPhase::Stopping => {
                self.phase = TickerPhase::Stopped;
                false
            },
            TickerPhase::Idle | TickerPhase::Stopped => false,
        }
    }
}

} // verus!
