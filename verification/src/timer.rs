//! The timer engine: one countdown timer whose remaining time is brought up
//! to date lazily, at the start of every operation, instead of by a ticking
//! background task.
//!
//! [`TimerView`] is the timer as mathematics and says what every operation
//! does. [`TimerState`] is the value a service holds. Each operation exists
//! twice: the form whose name ends in `_at` takes the present instant as an
//! argument and is fully determined by its contract; the form without
//! arguments reads the state's own clock and promises what holds whatever the
//! clock said.

use crate::clock::{elapsed_secs, MonotonicClock, Timestamp};
use crate::hms::{format_hms, hms_text};
use vstd::prelude::*;

verus! {

/// `a + b`, held at the largest `u64`.
pub open spec fn saturating_sum(a: nat, b: nat) -> nat {
    if a + b > u64::MAX {
        u64::MAX as nat
    } else {
        a + b
    }
}

/// What a caller sees of the timer at one instant.
pub struct SnapshotView {
    pub time_left: nat,
    pub hms: Seq<char>,
    pub running: bool,
}

/// One operation of the engine, with its argument.
#[derive(Clone, Copy, Debug, PartialEq, Eq)]
pub enum Operation {
    Query,
    Start(u64),
    Pause,
    Resume,
    Extend(u64),
}

/// Where the timer stands as a state machine.
pub enum Phase {
    /// Nothing left, not running.
    Stopped,
    /// Time left, not running.
    Paused,
    /// Time left and counting down.
    Running,
}

/// The timer as mathematics: seconds left, whether it runs, and the instant
/// (nanoseconds on the monotonic time line) at which the seconds were last
/// brought up to date.
pub struct TimerView {
    pub time_left: nat,
    pub running: bool,
    pub updated_at: nat,
}

impl TimerView {
    /// A timer never runs on empty, and its seconds fit a `u64`.
    pub open spec fn valid(self) -> bool {
        &&& self.time_left <= u64::MAX
        &&& self.time_left == 0 ==> !self.running
    }

    /// The phase of a valid timer.
    pub open spec fn phase(self) -> Phase {
        if self.running {
            Phase::Running
        } else if self.time_left > 0 {
            Phase::Paused
        } else {
            Phase::Stopped
        }
    }

    /// The stopped, zeroed timer a service starts with.
    pub open spec fn idle(now: nat) -> TimerView {
        TimerView { time_left: 0, running: false, updated_at: now }
    }

    /// Reconciliation: `elapsed` whole seconds have passed since
    /// `updated_at`, and the present instant is `now`. A paused timer only
    /// moves its instant; a running one that has not seen a whole second stays
    /// as it is; otherwise the seconds decay, never below zero, and a timer
    /// that reaches zero stops.
    pub open spec fn reconcile(self, elapsed: nat, now: nat) -> TimerView {
        if !self.running {
            TimerView { time_left: self.time_left, running: false, updated_at: now }
        } else if elapsed == 0 {
            self
        } else if self.time_left > elapsed {
            TimerView {
                time_left: (self.time_left - elapsed) as nat,
                running: true,
                updated_at: now,
            }
        } else {
            TimerView { time_left: 0, running: false, updated_at: now }
        }
    }

    /// Reconciliation against the clock reading `now`.
    pub open spec fn refresh(self, now: nat) -> TimerView {
        self.reconcile(elapsed_secs(now, self.updated_at), now)
    }

    /// Overwrites the timer: `seconds` left, running unless that is zero.
    pub open spec fn start(self, seconds: nat, now: nat) -> TimerView {
        TimerView { time_left: seconds, running: seconds > 0, updated_at: now }
    }

    /// Reconciles, then stops the countdown.
    pub open spec fn pause(self, now: nat) -> TimerView {
        TimerView {
            time_left: self.refresh(now).time_left,
            running: false,
            updated_at: self.refresh(now).updated_at,
        }
    }

    /// Sets a timer that has time left running from `now`; leaves a zeroed
    /// one alone.
    pub open spec fn rearm(self, now: nat) -> TimerView {
        if self.time_left > 0 {
            TimerView { time_left: self.time_left, running: true, updated_at: now }
        } else {
            self
        }
    }

    /// Reconciles, then sets the timer running if it has time left.
    pub open spec fn resume(self, now: nat) -> TimerView {
        self.refresh(now).rearm(now)
    }

    /// Reconciles, then adds `seconds`, held at the largest `u64`. The run
    /// flag is that of the reconciled timer.
    pub open spec fn extend(self, seconds: nat, now: nat) -> TimerView {
        TimerView {
            time_left: saturating_sum(self.refresh(now).time_left, seconds),
            running: self.refresh(now).running,
            updated_at: self.refresh(now).updated_at,
        }
    }

    /// What the timer shows: its seconds, the same as `HH:MM:SS`, and the run
    /// flag.
    pub open spec fn snapshot(self) -> SnapshotView {
        SnapshotView {
            time_left: self.time_left,
            hms: hms_text(self.time_left),
            running: self.running,
        }
    }

    /// The change that `operation` makes before the timer is shown, where the
    /// clock read `first` at the start of the operation and `second` when a
    /// resumed timer was set running. A query changes nothing by itself.
    pub open spec fn perform(self, operation: Operation, first: nat, second: nat) -> TimerView {
        match operation {
            Operation::Query => self,
            Operation::Start(seconds) => self.start(seconds as nat, first),
            Operation::Pause => self.pause(first),
            Operation::Resume => self.refresh(first).rearm(second),
            Operation::Extend(seconds) => self.extend(seconds as nat, first),
        }
    }

    /// A whole request at the single instant `now`: the operation, then the
    /// reconciliation that precedes every snapshot.
    pub open spec fn apply(self, operation: Operation, now: nat) -> TimerView {
        self.perform(operation, now, now).refresh(now)
    }
}

/// A point-in-time copy of what the timer shows.
#[derive(Debug, PartialEq, Eq)]
pub struct TimerSnapshot {
    pub time_left_secs: u64,
    pub time_left_hms: String,
    pub running: bool,
}

impl View for TimerSnapshot {
    type V = SnapshotView;

    open spec fn view(&self) -> SnapshotView {
        SnapshotView {
            time_left: self.time_left_secs as nat,
            hms: self.time_left_hms@,
            running: self.running,
        }
    }
}

/// The one timer of a service.
#[derive(Debug)]
pub struct TimerState {
    time_left_secs: u64,
    running: bool,
    updated_at: Timestamp,
    clock: MonotonicClock,
}

impl View for TimerState {
    type V = TimerView;

    closed spec fn view(&self) -> TimerView {
        TimerView {
            time_left: self.time_left_secs as nat,
            running: self.running,
            updated_at: self.updated_at@,
        }
    }
}

impl TimerState {
    /// The clock that the operations without a time argument read.
    pub closed spec fn clock(&self) -> MonotonicClock {
        self.clock
    }

    /// Well-formedness: a timer with nothing left is not running.
    pub open spec fn wf(&self) -> bool {
        self@.valid()
    }

    /// A stopped, zeroed timer with a clock of its own, started now.
    pub fn new() -> (state: TimerState)
        ensures
            exists|now: nat| state@ == #[trigger] TimerView::idle(now),
            state.wf(),
    {
        let clock = MonotonicClock::start();
        let now = clock.now();
        let state = TimerState { time_left_secs: 0, running: false, updated_at: now, clock };
        assert(state@ == TimerView::idle(now@));
        state
    }

    /// Seconds left as of the last reconciliation.
    pub fn time_left_secs(&self) -> (seconds: u64)
        ensures
            seconds == self@.time_left,
    {
        self.time_left_secs
    }

    /// Whether the timer was running as of the last reconciliation.
    pub fn is_running(&self) -> (running: bool)
        ensures
            running == self@.running,
    {
        self.running
    }

    /// The instant of the last reconciliation.
    pub fn updated_at(&self) -> (t: Timestamp)
        ensures
            t@ == self@.updated_at,
    {
        self.updated_at
    }

    /// Brings the timer up to date as of `now`.
    pub fn refresh_at(&mut self, now: Timestamp)
        ensures
            final(self)@ == old(self)@.refresh(now@),
            final(self).clock() == old(self).clock(),
            old(self).wf() ==> final(self).wf(),
    {
        if !self.running {
            self.updated_at = now;
            return;
        }
        let elapsed = now.whole_secs_since(&self.updated_at);
        if elapsed == 0 {
            return;
        }
        self.time_left_secs = self.time_left_secs.saturating_sub(elapsed);
        if self.time_left_secs == 0 {
            self.running = false;
        }
        self.updated_at = now;
    }

    /// Overwrites the timer as of `now`: `seconds` left, running unless that
    /// is zero.
    pub fn start_at(&mut self, seconds: u64, now: Timestamp)
        ensures
            final(self)@ == old(self)@.start(seconds as nat, now@),
            final(self).clock() == old(self).clock(),
            final(self).wf(),
    {
        self.time_left_secs = seconds;
        self.running = seconds > 0;
        self.updated_at = now;
    }

    /// Brings the timer up to date as of `now`, then stops the countdown.
    pub fn pause_at(&mut self, now: Timestamp)
        ensures
            final(self)@ == old(self)@.pause(now@),
            final(self).clock() == old(self).clock(),
            old(self).wf() ==> final(self).wf(),
    {
        self.refresh_at(now);
        self.running = false;
    }

    /// Sets a timer that has time left running from `now`.
    pub fn rearm_at(&mut self, now: Timestamp)
        ensures
            final(self)@ == old(self)@.rearm(now@),
            final(self).clock() == old(self).clock(),
            old(self).wf() ==> final(self).wf(),
    {
        if self.time_left_secs > 0 {
            self.running = true;
            self.updated_at = now;
        }
    }

    /// Brings the timer up to date as of `now`, then sets it running if it
    /// has time left.
    pub fn resume_at(&mut self, now: Timestamp)
        ensures
            final(self)@ == old(self)@.resume(now@),
            final(self).clock() == old(self).clock(),
            old(self).wf() ==> final(self).wf(),
    {
        self.refresh_at(now);
        self.rearm_at(now);
    }

    /// Brings the timer up to date as of `now`, then adds `seconds`, held at
    /// the largest `u64`. Whether the timer runs is left to reconciliation
    /// alone: time added to a stopped timer does not start it.
    pub fn extend_at(&mut self, seconds: u64, now: Timestamp)
        ensures
            final(self)@ == old(self)@.extend(seconds as nat, now@),
            final(self).clock() == old(self).clock(),
            old(self).wf() ==> final(self).wf(),
    {
        self.refresh_at(now);
        self.time_left_secs = self.time_left_secs.saturating_add(seconds);
    }

    /// What the timer shows as it stands, without reconciliation.
    fn peek(&self) -> (snapshot: TimerSnapshot)
        ensures
            snapshot@ == self@.snapshot(),
    {
        TimerSnapshot {
            time_left_secs: self.time_left_secs,
            time_left_hms: format_hms(self.time_left_secs),
            running: self.running,
        }
    }

    /// Brings the timer up to date as of `now` and returns what it shows.
    pub fn snapshot_at(&mut self, now: Timestamp) -> (snapshot: TimerSnapshot)
        ensures
            final(self)@ == old(self)@.refresh(now@),
            final(self).clock() == old(self).clock(),
            old(self).wf() ==> final(self).wf(),
            snapshot@ == final(self)@.snapshot(),
    {
        self.refresh_at(now);
        self.peek()
    }

    /// Carries out one request as of `now`: the operation, then the snapshot
    /// that answers it.
    pub fn apply_at(&mut self, operation: Operation, now: Timestamp) -> (snapshot: TimerSnapshot)
        ensures
            final(self)@ == old(self)@.apply(operation, now@),
            final(self).clock() == old(self).clock(),
            old(self).wf() ==> final(self).wf(),
            snapshot@ == final(self)@.snapshot(),
    {
        match operation {
            Operation::Query => {},
            Operation::Start(seconds) => self.start_at(seconds, now),
            Operation::Pause => self.pause_at(now),
            Operation::Resume => self.resume_at(now),
            Operation::Extend(seconds) => self.extend_at(seconds, now),
        }
        self.snapshot_at(now)
    }

    /// Brings the timer up to date as of the clock's present reading.
    pub fn refresh(&mut self)
        ensures
            exists|now: nat| final(self)@ == #[trigger] old(self)@.refresh(now),
            final(self).clock() == old(self).clock(),
            old(self).wf() ==> final(self).wf(),
    {
        let now = self.clock.now();
        self.refresh_at(now);
        assert(self@ == old(self)@.refresh(now@));
    }

    /// Overwrites the timer: `seconds` left, running unless that is zero,
    /// counted from the clock's present reading.
    pub fn start(&mut self, seconds: u64)
        ensures
            exists|now: nat| final(self)@ == #[trigger] old(self)@.start(seconds as nat, now),
            final(self).clock() == old(self).clock(),
            final(self).wf(),
    {
        let now = self.clock.now();
        self.start_at(seconds, now);
        assert(self@ == old(self)@.start(seconds as nat, now@));
    }

    /// Brings the timer up to date, then stops the countdown.
    pub fn pause(&mut self)
        ensures
            exists|now: nat| final(self)@ == #[trigger] old(self)@.pause(now),
            final(self).clock() == old(self).clock(),
            old(self).wf() ==> final(self).wf(),
    {
        let now = self.clock.now();
        self.pause_at(now);
        assert(self@ == old(self)@.pause(now@));
    }

    /// Brings the timer up to date, then sets it running if it has time
    /// left. The clock is read once for each of the two steps.
    pub fn resume(&mut self)
        ensures
            exists|first: nat, second: nat|
                final(self)@ == #[trigger] old(self)@.refresh(first).rearm(second),
            final(self).clock() == old(self).clock(),
            old(self).wf() ==> final(self).wf(),
    {
        let first = self.clock.now();
        self.refresh_at(first);
        let second = self.clock.now();
        self.rearm_at(second);
        assert(self@ == old(self)@.refresh(first@).rearm(second@));
    }

    /// Brings the timer up to date, then adds `seconds`, held at the largest
    /// `u64`.
    pub fn extend(&mut self, seconds: u64)
        ensures
            exists|now: nat| final(self)@ == #[trigger] old(self)@.extend(seconds as nat, now),
            final(self).clock() == old(self).clock(),
            old(self).wf() ==> final(self).wf(),
    {
        let now = self.clock.now();
        self.extend_at(seconds, now);
        assert(self@ == old(self)@.extend(seconds as nat, now@));
    }

    /// Brings the timer up to date and returns what it shows.
    pub fn snapshot(&mut self) -> (snapshot: TimerSnapshot)
        ensures
            exists|now: nat| final(self)@ == #[trigger] old(self)@.refresh(now),
            final(self).clock() == old(self).clock(),
            old(self).wf() ==> final(self).wf(),
            snapshot@ == final(self)@.snapshot(),
    {
        let now = self.clock.now();
        let snapshot = self.snapshot_at(now);
        assert(self@ == old(self)@.refresh(now@));
        snapshot
    }

    /// Carries out one request: the operation, then the snapshot that
    /// answers it, each step against its own reading of the clock.
    pub fn apply(&mut self, operation: Operation) -> (snapshot: TimerSnapshot)
        ensures
            exists|first: nat, second: nat, third: nat|
                final(self)@ == #[trigger] old(self)@.perform(operation, first, second).refresh(
                    third,
                ),
            final(self).clock() == old(self).clock(),
            old(self).wf() ==> final(self).wf(),
            snapshot@ == final(self)@.snapshot(),
    {
        match operation {
            Operation::Query => {},
            Operation::Start(seconds) => self.start(seconds),
            Operation::Pause => self.pause(),
            Operation::Resume => self.resume(),
            Operation::Extend(seconds) => self.extend(seconds),
        }
        let ghost changed = self@;
        let snapshot = self.snapshot();
        proof {
            let third = choose|now: nat| self@ == #[trigger] changed.refresh(now);
            match operation {
                Operation::Query => {
                    assert(self@ == old(self)@.perform(operation, 0, 0).refresh(third));
                },
                Operation::Start(seconds) => {
                    let first = choose|now: nat|
                        changed == #[trigger] old(self)@.start(seconds as nat, now);
                    assert(self@ == old(self)@.perform(operation, first, 0).refresh(third));
                },
                Operation::Pause => {
                    let first = choose|now: nat| changed == #[trigger] old(self)@.pause(now);
                    assert(self@ == old(self)@.perform(operation, first, 0).refresh(third));
                },
                Operation::Resume => {
                    let (first, second) = choose|first: nat, second: nat|
                        changed == #[trigger] old(self)@.refresh(first).rearm(second);
                    assert(self@ == old(self)@.perform(operation, first, second).refresh(third));
                },
                Operation::Extend(seconds) => {
                    let first = choose|now: nat|
                        changed == #[trigger] old(self)@.extend(seconds as nat, now);
                    assert(self@ == old(self)@.perform(operation, first, 0).refresh(third));
                },
            }
        }
        snapshot
    }
}

impl Clone for TimerSnapshot {
    fn clone(&self) -> (copy: TimerSnapshot)
        ensures
            copy == *self,
    {
        TimerSnapshot {
            time_left_secs: self.time_left_secs,
            time_left_hms: self.time_left_hms.clone(),
            running: self.running,
        }
    }
}

impl Clone for TimerState {
    fn clone(&self) -> (copy: TimerState)
        ensures
            copy == *self,
    {
        TimerState {
            time_left_secs: self.time_left_secs,
            running: self.running,
            updated_at: self.updated_at,
            clock: self.clock,
        }
    }
}

impl Default for TimerState {
    /// A stopped, zeroed timer with a clock of its own, started now.
    fn default() -> (state: TimerState)
        ensures
            exists|now: nat| state@ == #[trigger] TimerView::idle(now),
            state.wf(),
    {
        TimerState::new()
    }
}

} // verus!
