//! Laws of the timer engine, stated over [`TimerView`] and proved for every
//! state, every clock reading and every argument they speak of; and the law
//! that ties the client's requests to the service's endpoints.

use crate::client::Action;
use crate::clock::elapsed_secs;
use crate::service::{request_of, BodyError, Rejection, STATUS_NOT_FOUND};
use crate::timer::{saturating_sum, Operation, Phase, TimerView};
use vstd::prelude::*;

verus! {

/// The timer after it has been queried at each of `times` in turn.
pub open spec fn queried_at_each(timer: TimerView, times: Seq<nat>) -> TimerView
    decreases times.len(),
{
    if times.len() == 0 {
        timer
    } else {
        queried_at_each(timer, times.drop_last()).refresh(times.last())
    }
}

/// The timer after it has been extended by one second at each of `times` in
/// turn.
pub open spec fn extended_by_one_at_each(timer: TimerView, times: Seq<nat>) -> TimerView
    decreases times.len(),
{
    if times.len() == 0 {
        timer
    } else {
        extended_by_one_at_each(timer, times.drop_last()).extend(1, times.last())
    }
}

/// Whether reconciling `timer` at `now` takes time off it.
pub open spec fn decays_at(timer: TimerView, now: nat) -> bool {
    timer.running && elapsed_secs(now, timer.updated_at) > 0
}

/// Every operation keeps a valid timer valid, and `start` makes any timer
/// valid.
pub proof fn lemma_operations_keep_validity(timer: TimerView, seconds: u64, now: nat, later: nat)
    ensures
        TimerView::idle(now).valid(),
        timer.start(seconds as nat, now).valid(),
        timer.valid() ==> timer.refresh(now).valid(),
        timer.valid() ==> timer.pause(now).valid(),
        timer.valid() ==> timer.rearm(now).valid(),
        timer.valid() ==> timer.resume(now).valid(),
        timer.valid() ==> timer.refresh(now).rearm(later).valid(),
        timer.valid() ==> timer.extend(seconds as nat, now).valid(),
{
}

/// A whole request keeps a valid timer valid, whatever the clock read at
/// each of its steps.
pub proof fn lemma_requests_keep_validity(
    timer: TimerView,
    operation: Operation,
    first: nat,
    second: nat,
    third: nat,
)
    requires
        timer.valid(),
    ensures
        timer.perform(operation, first, second).valid(),
        timer.perform(operation, first, second).refresh(third).valid(),
        timer.apply(operation, first).valid(),
{
    match operation {
        Operation::Query => {},
        Operation::Start(seconds) => {
            lemma_operations_keep_validity(timer, seconds, first, second);
        },
        Operation::Pause => {},
        Operation::Resume => {},
        Operation::Extend(seconds) => {
            lemma_operations_keep_validity(timer, seconds, first, second);
        },
    }
}

/// The instant of the last update never moves backwards while the clock
/// does not.
pub proof fn lemma_updated_at_never_decreases(timer: TimerView, seconds: nat, now: nat)
    requires
        timer.updated_at <= now,
    ensures
        timer.updated_at <= timer.refresh(now).updated_at <= now,
        timer.updated_at <= timer.start(seconds, now).updated_at <= now,
        timer.updated_at <= timer.pause(now).updated_at <= now,
        timer.updated_at <= timer.resume(now).updated_at <= now,
        timer.updated_at <= timer.extend(seconds, now).updated_at <= now,
{
}

/// Saturation: a running timer, or one that is already at zero, on which at
/// least as many seconds have passed as it had left, is at zero and stopped
/// after reconciliation. (A paused timer with time left does not decay, so it
/// is not spoken of.)
pub proof fn lemma_reconcile_saturates(timer: TimerView, elapsed: nat, now: nat)
    requires
        timer.valid(),
        timer.running || timer.time_left == 0,
        elapsed >= timer.time_left,
    ensures
        timer.reconcile(elapsed, now).time_left == 0,
        !timer.reconcile(elapsed, now).running,
{
}

/// Reconciliation never adds time, and takes off exactly the elapsed seconds
/// where the timer runs and has more than that left.
pub proof fn lemma_reconcile_decays(timer: TimerView, elapsed: nat, now: nat)
    ensures
        timer.reconcile(elapsed, now).time_left <= timer.time_left,
        timer.running && timer.time_left > elapsed ==> timer.reconcile(elapsed, now).time_left
            == timer.time_left - elapsed,
        timer.running && timer.time_left > elapsed ==> timer.reconcile(elapsed, now).running,
        !timer.running ==> timer.reconcile(elapsed, now).time_left == timer.time_left,
{
}

/// Idempotent refresh: a second reconciliation at the same instant changes
/// nothing, so two queries with no time between them show the same snapshot.
pub proof fn lemma_refresh_idempotent(timer: TimerView, now: nat)
    ensures
        timer.refresh(now).refresh(now) == timer.refresh(now),
        timer.refresh(now).refresh(now).snapshot() == timer.refresh(now).snapshot(),
{
    assert(elapsed_secs(now, now) == 0);
}

/// A query that comes less than a whole second after the last update shows
/// what the timer showed then.
pub proof fn lemma_query_within_a_second(timer: TimerView, later: nat)
    requires
        elapsed_secs(later, timer.updated_at) == 0,
    ensures
        timer.refresh(later).snapshot() == timer.snapshot(),
{
}

/// Pause freezes decay: after a pause, however often the timer is queried
/// and whatever the clock reads at each query, it stays paused with the time
/// it had when it was paused.
pub proof fn lemma_pause_freezes_decay(timer: TimerView, paused_at: nat, times: Seq<nat>)
    ensures
        !timer.pause(paused_at).running,
        !queried_at_each(timer.pause(paused_at), times).running,
        queried_at_each(timer.pause(paused_at), times).time_left == timer.pause(
            paused_at,
        ).time_left,
    decreases times.len(),
{
    if times.len() > 0 {
        lemma_pause_freezes_decay(timer, paused_at, times.drop_last());
    }
}

/// Pausing is idempotent in what it shows: a second pause changes neither
/// the seconds nor the run flag.
pub proof fn lemma_pause_idempotent(timer: TimerView, now: nat, later: nat)
    ensures
        timer.pause(now).pause(later).snapshot() == timer.pause(now).snapshot(),
{
}

/// Resume from zero: a valid timer with no time left is not running after
/// `resume`, whatever the clock read at either step.
pub proof fn lemma_resume_from_zero(timer: TimerView, first: nat, second: nat)
    requires
        timer.valid(),
        timer.time_left == 0,
    ensures
        !timer.resume(first).running,
        timer.resume(first).time_left == 0,
        !timer.refresh(first).rearm(second).running,
        timer.refresh(first).rearm(second).time_left == 0,
{
}

/// Resume with time left: a timer that still has time after reconciliation
/// runs from the instant of the resume, with that time.
pub proof fn lemma_resume_with_time_left(timer: TimerView, now: nat)
    requires
        timer.refresh(now).time_left > 0,
    ensures
        timer.resume(now).running,
        timer.resume(now).time_left == timer.refresh(now).time_left,
        timer.resume(now).updated_at == now,
{
}

/// Extend never changes the run flag: for every state, `extend` adds its
/// seconds, held at the largest `u64`, to the reconciled time and leaves the
/// run flag as reconciliation left it.
pub proof fn lemma_extend_keeps_run_flag(timer: TimerView, seconds: nat, now: nat)
    ensures
        timer.extend(seconds, now).time_left == saturating_sum(
            timer.refresh(now).time_left,
            seconds,
        ),
        timer.extend(seconds, now).running == timer.refresh(now).running,
        timer.extend(seconds, now).updated_at == timer.refresh(now).updated_at,
{
}

/// Extend against the state before the call: the seconds are added to the
/// time the timer had, and the run flag is the one it had. This holds of
/// every valid timer on which reconciliation takes nothing off, and of a
/// running one that keeps running where the sum is held at the largest `u64`
/// either way; on the other timers reconciliation decays the time first, or
/// stops the timer.
pub proof fn lemma_extend_adds_to_prior_state(timer: TimerView, seconds: nat, now: nat)
    requires
        timer.valid(),
        !decays_at(timer, now) || (timer.time_left > elapsed_secs(now, timer.updated_at)
            && timer.time_left - elapsed_secs(now, timer.updated_at) + seconds >= u64::MAX),
    ensures
        timer.extend(seconds, now).time_left == saturating_sum(timer.time_left, seconds),
        timer.extend(seconds, now).running == timer.running,
{
}

/// On every valid timer that `lemma_extend_adds_to_prior_state` leaves out,
/// `extend` does differ from plain addition to the state before the call.
pub proof fn lemma_extend_after_decay_differs(timer: TimerView, seconds: nat, now: nat)
    requires
        timer.valid(),
        decays_at(timer, now),
        !(timer.time_left > elapsed_secs(now, timer.updated_at) && timer.time_left - elapsed_secs(
            now,
            timer.updated_at,
        ) + seconds >= u64::MAX),
    ensures
        timer.extend(seconds, now).time_left != saturating_sum(timer.time_left, seconds)
            || timer.extend(seconds, now).running != timer.running,
{
}

/// No lost updates: extensions by one second that reach a stopped timer one
/// after the other, in any order of arrival and at any instants, each add
/// exactly one second (up to the largest `u64`) and leave the timer stopped.
pub proof fn lemma_extensions_accumulate(timer: TimerView, times: Seq<nat>)
    requires
        timer.valid(),
        !timer.running,
    ensures
        !extended_by_one_at_each(timer, times).running,
        extended_by_one_at_each(timer, times).time_left == saturating_sum(
            timer.time_left,
            times.len(),
        ),
        timer.time_left + times.len() <= u64::MAX ==> extended_by_one_at_each(
            timer,
            times,
        ).time_left == timer.time_left + times.len(),
    decreases times.len(),
{
    if times.len() > 0 {
        lemma_extensions_accumulate(timer, times.drop_last());
    }
}

/// Starting with nothing gives a stopped, zeroed timer; starting with
/// something gives a running one with exactly that much.
pub proof fn lemma_start_overwrites(timer: TimerView, seconds: nat, now: nat)
    ensures
        timer.start(seconds, now).time_left == seconds,
        timer.start(seconds, now).running == (seconds > 0),
        timer.start(0, now) == TimerView::idle(now),
        timer.start(seconds, now).refresh(now) == timer.start(seconds, now),
{
    assert(elapsed_secs(now, now) == 0);
}

/// The state machine: where each operation takes a valid timer.
///
/// `start` leads to `Running`, or to `Stopped` when given zero seconds.
/// Reconciliation leaves a timer that is not running where it is, and takes a
/// running one to `Stopped` exactly when its time has run out. `pause` never
/// ends in `Running`, `resume` never in `Paused`. `extend` by at least one
/// second never ends in `Stopped`, and by itself moves between phases only
/// from `Stopped` to `Paused`.
pub proof fn lemma_phase_transitions(timer: TimerView, seconds: nat, now: nat)
    requires
        timer.valid(),
    ensures
        seconds > 0 ==> timer.start(seconds, now).phase() == Phase::Running,
        timer.start(0, now).phase() == Phase::Stopped,
        timer.phase() != Phase::Running ==> timer.refresh(now).phase() == timer.phase(),
        timer.phase() == Phase::Running ==> timer.refresh(now).phase() == if timer.time_left
            > elapsed_secs(now, timer.updated_at) {
            Phase::Running
        } else {
            Phase::Stopped
        },
        timer.pause(now).phase() == if timer.refresh(now).time_left > 0 {
            Phase::Paused
        } else {
            Phase::Stopped
        },
        timer.resume(now).phase() == if timer.refresh(now).time_left > 0 {
            Phase::Running
        } else {
            Phase::Stopped
        },
        seconds > 0 ==> timer.extend(seconds, now).phase() == if timer.refresh(now).running {
            Phase::Running
        } else {
            Phase::Paused
        },
        timer.extend(0, now).phase() == timer.refresh(now).phase(),
{
}

/// Client and service agree: the request that the client writes for an
/// action is, for the service, the operation that the action stands for, and
/// a body is looked at exactly where the client sends one. `Toggle` is the
/// exception: the service has no such endpoint, so that request is not found.
pub proof fn lemma_actions_reach_their_operations(action: Action, decoded: Result<u64, BodyError>)
    requires
        match action.seconds_of() {
            Some(seconds) => decoded == Ok::<u64, BodyError>(seconds),
            None => true,
        },
    ensures
        match action.operation_of() {
            Some(operation) => request_of(action.method_of(), action.path_of(), decoded) == Ok::<
                Operation,
                Rejection,
            >(operation),
            None => request_of(action.method_of(), action.path_of(), decoded) == Err::<
                Operation,
                Rejection,
            >(Rejection { status: STATUS_NOT_FOUND, message: "route not found"@ }),
        },
{
    reveal_strlit("GET");
    reveal_strlit("POST");
    reveal_strlit("/time_left");
    reveal_strlit("/start");
    reveal_strlit("/pause");
    reveal_strlit("/resume");
    reveal_strlit("/extend");
    reveal_strlit("/toggle");
    let method = action.method_of();
    let path = action.path_of();
    match action {
        Action::Status => {
            assert(method.len() == 3 && path.len() == 10);
        },
        Action::Start(_) => {
            assert(method.len() == 4 && path.len() == 6);
        },
        Action::Pause => {
            assert(method.len() == 4 && path.len() == 6 && path[1] == 'p');
        },
        Action::Resume => {
            assert(method.len() == 4 && path.len() == 7 && path[1] == 'r');
        },
        Action::Toggle => {
            assert(method.len() == 4 && path.len() == 7 && path[1] == 't');
        },
        Action::Extend(_) => {
            assert(method.len() == 4 && path.len() == 7 && path[1] == 'e');
        },
    }
}

} // verus!
