//! Runs of the supervisor, and what holds of every run.
//!
//! A run is the sequence of states that the driver's reports lead through,
//! from [`Supervisor::start`]. Every law below is stated of all event
//! sequences, so of every state that a run can reach.
use vstd::prelude::*;

use crate::error::RunError;
use crate::supervisor::{Action, Event, Outcome, Phase, Plan, Search, Supervisor, Teardown};

verus! {

/// The state that `events` lead to from `s`.
pub open spec fn run_from(s: Supervisor, events: Seq<Event>) -> Supervisor
    decreases events.len(),
{
    if events.len() == 0 {
        s
    } else {
        run_from(s.next(events[0]), events.drop_first())
    }
}

/// The state that `events` lead to in a run with `plan`.
pub open spec fn run(plan: Plan, events: Seq<Event>) -> Supervisor {
    run_from(Supervisor::start(plan), events)
}

/// Whether, on the way from `s` through `events`, the window locator was asked
/// and found the window.
pub open spec fn found_during(s: Supervisor, events: Seq<Event>) -> bool
    decreases events.len(),
{
    events.len() > 0 && ((s.phase == Phase::Probing && events[0] == Event::Probed { found: true })
        || found_during(s.next(events[0]), events.drop_first()))
}

/// An action of the ordered teardown, or the end of a run that was to exit
/// with `code`: no more polling or sleeping.
pub open spec fn releasing_toward(a: Action, code: i32) -> bool {
    match a {
        Action::KillTarget | Action::WaitTarget | Action::KillDisplay | Action::WaitDisplay => true,
        Action::Exit { code: c } => c == code,
        Action::Fail { .. } => true,
        _ => false,
    }
}

/// A state on its way to a forced exit with `code`, or already failed.
spec fn forcing(s: Supervisor, code: i32) -> bool {
    ||| s.phase matches Phase::Terminating { outcome: Outcome::Forced { code: c }, .. } && c == code
    ||| s.phase == Phase::Exited { outcome: Outcome::Forced { code } }
    ||| s.phase matches Phase::Exited { outcome: Outcome::Failed { .. } }
}

/// A state after the target's natural exit: the display server is waited on,
/// or released after a failed wait.
spec fn winding_down(s: Supervisor) -> bool {
    ||| s.phase == Phase::AwaitingDisplay
    ||| s.phase matches Phase::Terminating {
        step: Teardown::KillDisplay,
        outcome: Outcome::Failed { .. },
    }
    ||| s.phase matches Phase::Terminating {
        step: Teardown::ReapDisplay,
        outcome: Outcome::Failed { .. },
    }
    ||| s.phase == Phase::Exited { outcome: Outcome::Natural }
    ||| s.phase matches Phase::Exited { outcome: Outcome::Failed { .. } }
}

/// What holds of every state that a run reaches.
spec fn consistent(s: Supervisor) -> bool {
    &&& (s.phase == Phase::Probing || s.phase == Phase::Polling || s.phase == Phase::Sleeping)
        ==> s.plan.timeout_ms is Some
    &&& s.phase == Phase::Probing ==> s.plan.watch_window && s.search != Search::Found
    &&& s.phase == Phase::AwaitingDisplay ==> s.target_reaped
    &&& s.phase matches Phase::Terminating { outcome, .. } ==> outcome != Outcome::Natural
    &&& s.phase matches Phase::Terminating { step, outcome } ==> ((step == Teardown::KillDisplay
        || step == Teardown::ReapDisplay) ==> s.target_reaped || outcome == Outcome::Failed {
        error: RunError::SpawnFailed,
    })
    &&& s.phase matches Phase::Terminating { step, outcome: Outcome::Forced { code } } ==> {
        &&& s.plan.timeout_ms is Some
        &&& code == s.outcome_code()
        &&& (step == Teardown::KillDisplay || step == Teardown::ReapDisplay) ==> s.target_reaped
    }
    &&& s.phase matches Phase::Exited { outcome: Outcome::Forced { code } } ==> {
        &&& s.plan.timeout_ms is Some
        &&& code == s.outcome_code()
        &&& s.target_reaped
        &&& s.plan.headless ==> s.display_reaped
    }
    &&& s.phase == Phase::Exited { outcome: Outcome::Natural } ==> {
        &&& s.target_reaped
        &&& s.plan.headless ==> s.display_reaped
    }
}

proof fn lemma_start_consistent(plan: Plan)
    ensures
        consistent(Supervisor::start(plan)),
{
}

proof fn lemma_next_consistent(s: Supervisor, e: Event)
    requires
        consistent(s),
    ensures
        consistent(s.next(e)),
        s.next(e).plan == s.plan,
        s.next(e).search == Search::Found <==> (s.search == Search::Found || (s.phase
            == Phase::Probing && e == Event::Probed { found: true })),
{
}

proof fn lemma_run_consistent(s: Supervisor, events: Seq<Event>)
    requires
        consistent(s),
    ensures
        consistent(run_from(s, events)),
        run_from(s, events).plan == s.plan,
        run_from(s, events).search == Search::Found <==> (s.search == Search::Found
            || found_during(s, events)),
    decreases events.len(),
{
    if events.len() > 0 {
        lemma_next_consistent(s, events[0]);
        lemma_run_consistent(s.next(events[0]), events.drop_first());
    }
}

proof fn lemma_reachable(plan: Plan, events: Seq<Event>)
    ensures
        consistent(run(plan, events)),
        run(plan, events).plan == plan,
        run(plan, events).search == Search::Found <==> found_during(
            Supervisor::start(plan),
            events,
        ),
{
    lemma_start_consistent(plan);
    lemma_run_consistent(Supervisor::start(plan), events);
}

proof fn lemma_run_concat(s: Supervisor, a: Seq<Event>, b: Seq<Event>)
    ensures
        run_from(s, a + b) == run_from(run_from(s, a), b),
    decreases a.len(),
{
    if a.len() > 0 {
        assert((a + b).drop_first() =~= a.drop_first() + b);
        lemma_run_concat(s.next(a[0]), a.drop_first(), b);
    } else {
        assert(a + b =~= b);
    }
}

proof fn lemma_run_push(s: Supervisor, a: Seq<Event>, e: Event)
    ensures
        run_from(s, a.push(e)) == run_from(s, a).next(e),
{
    let r = run_from(s, a);
    lemma_run_concat(s, a, seq![e]);
    assert(a + seq![e] =~= a.push(e));
    assert(seq![e].drop_first() =~= Seq::<Event>::empty());
    assert(run_from(r.next(e), Seq::<Event>::empty()) == r.next(e));
    assert(run_from(r, seq![e]) == run_from(r.next(e), seq![e].drop_first()));
}

proof fn lemma_forcing_closed(s: Supervisor, code: i32, events: Seq<Event>)
    requires
        forcing(s, code),
    ensures
        forcing(run_from(s, events), code),
    decreases events.len(),
{
    if events.len() > 0 {
        lemma_forcing_closed(s.next(events[0]), code, events.drop_first());
    }
}

proof fn lemma_winding_down_closed(s: Supervisor, events: Seq<Event>)
    requires
        winding_down(s),
    ensures
        winding_down(run_from(s, events)),
    decreases events.len(),
{
    if events.len() > 0 {
        lemma_winding_down_closed(s.next(events[0]), events.drop_first());
    }
}

/// Both processes are reaped before a run returns the target's natural status
/// or forces the tool's exit.
pub proof fn lemma_ends_after_reaping(plan: Plan, events: Seq<Event>)
    ensures
        ({
            let s = run(plan, events);
            (s.pending() == Action::Finish || s.pending() is Exit) ==> s.target_reaped && (
            plan.headless ==> s.display_reaped)
        }),
{
    lemma_reachable(plan, events);
}

/// The teardown releases the display server only once the target has been
/// reaped, unless the target could not be spawned at all.
pub proof fn lemma_display_released_after_target(plan: Plan, events: Seq<Event>)
    ensures
        ({
            let s = run(plan, events);
            (s.pending() == Action::KillDisplay || s.phase matches Phase::Terminating {
                step: Teardown::ReapDisplay,
                ..
            }) ==> s.target_reaped || s.phase matches Phase::Terminating {
                outcome: Outcome::Failed { error: RunError::SpawnFailed },
                ..
            }
        }),
{
    lemma_reachable(plan, events);
}

/// A run without a timeout never forces the tool's exit, and returns only after
/// the target, and in headless mode the display server, have been reaped.
pub proof fn lemma_untimed_run_never_forces(plan: Plan, events: Seq<Event>)
    requires
        plan.timeout_ms is None,
    ensures
        ({
            let s = run(plan, events);
            &&& !(s.pending() is Exit)
            &&& s.pending() == Action::Finish ==> s.target_reaped && (plan.headless
                ==> s.display_reaped)
        }),
{
    lemma_reachable(plan, events);
}

/// In a timed run without a window title, a target that exits before the
/// timeout ends the run naturally: the display server, if any, is waited on,
/// and the tool's exit is never forced afterwards.
pub proof fn lemma_natural_exit_before_timeout(
    plan: Plan,
    before: Seq<Event>,
    now_ms: u64,
    after: Seq<Event>,
)
    requires
        plan.timeout_ms is Some,
        !plan.watch_window,
        run(plan, before).phase == Phase::Polling,
    ensures
        ({
            let exit = Event::Polled { exited: true, now_ms };
            let s = run(plan, before.push(exit));
            let t = run(plan, before.push(exit) + after);
            &&& s.pending() == if plan.headless {
                Action::WaitDisplay
            } else {
                Action::Finish
            }
            &&& !(t.pending() is Exit)
            &&& t.pending() == Action::Finish ==> t.target_reaped && (plan.headless
                ==> t.display_reaped)
        }),
{
    let exit = Event::Polled { exited: true, now_ms };
    let start = Supervisor::start(plan);
    lemma_reachable(plan, before);
    lemma_run_push(start, before, exit);
    lemma_run_concat(start, before.push(exit), after);
    lemma_winding_down_closed(run(plan, before.push(exit)), after);
    lemma_reachable(plan, before.push(exit) + after);
}

/// In a timed run without a window title, a target still running when the
/// timeout has elapsed is killed at once, and the tool exits with 0.
pub proof fn lemma_timeout_without_window(
    plan: Plan,
    before: Seq<Event>,
    now_ms: u64,
    after: Seq<Event>,
)
    requires
        !plan.watch_window,
        run(plan, before).phase == Phase::Polling,
        run(plan, before).timed_out(now_ms),
    ensures
        ({
            let poll = Event::Polled { exited: false, now_ms };
            &&& run(plan, before.push(poll)).pending() == Action::KillTarget
            &&& releasing_toward(run(plan, before.push(poll) + after).pending(), 0)
        }),
{
    let poll = Event::Polled { exited: false, now_ms };
    let start = Supervisor::start(plan);
    lemma_reachable(plan, before);
    lemma_run_push(start, before, poll);
    lemma_run_concat(start, before.push(poll), after);
    lemma_forcing_closed(run(plan, before.push(poll)), 0, after);
}

/// With a window title and no keep-going, the locator's success ends the run at
/// once: the next actions release the target and then the display server, with
/// no further poll or sleep, and the tool exits with 0.
pub proof fn lemma_found_window_ends_run(plan: Plan, before: Seq<Event>, after: Seq<Event>)
    requires
        !plan.keep_going,
        run(plan, before).phase == Phase::Probing,
    ensures
        ({
            let found = Event::Probed { found: true };
            let t = run(plan, before.push(found) + after);
            &&& run(plan, before.push(found)).pending() == Action::KillTarget
            &&& releasing_toward(t.pending(), 0)
            &&& t.pending() is Exit ==> t.target_reaped && (plan.headless ==> t.display_reaped)
        }),
{
    let found = Event::Probed { found: true };
    let start = Supervisor::start(plan);
    lemma_reachable(plan, before);
    lemma_run_push(start, before, found);
    lemma_run_concat(start, before.push(found), after);
    lemma_forcing_closed(run(plan, before.push(found)), 0, after);
    lemma_reachable(plan, before.push(found) + after);
}

/// With keep-going, finding the window does not end the run: the target is
/// polled next.
pub proof fn lemma_keep_going_continues(plan: Plan, before: Seq<Event>)
    requires
        plan.keep_going,
        run(plan, before).phase == Phase::Probing,
    ensures
        run(plan, before.push(Event::Probed { found: true })).phase == Phase::Polling,
        run(plan, before.push(Event::Probed { found: true })).search == Search::Found,
{
    lemma_reachable(plan, before);
    lemma_run_push(Supervisor::start(plan), before, Event::Probed { found: true });
}

/// With keep-going, the polling loop is left for a forced exit only when a poll
/// finds the target exited or the timeout elapsed.
pub proof fn lemma_keep_going_ends_at_exit_or_timeout(
    plan: Plan,
    before: Seq<Event>,
    event: Event,
)
    requires
        plan.keep_going,
        ({
            let s = run(plan, before);
            s.phase == Phase::Probing || s.phase == Phase::Polling || s.phase == Phase::Sleeping
        }),
        run(plan, before).next(event).phase matches Phase::Terminating {
            outcome: Outcome::Forced { .. },
            ..
        },
    ensures
        run(plan, before).phase == Phase::Polling,
        event matches Event::Polled { exited, now_ms } && (exited || run(plan, before).timed_out(
            now_ms,
        )),
{
    lemma_reachable(plan, before);
}

/// Where a window title is configured, a forced exit carries 0 exactly when the
/// locator found the window at some point of the run, and 1 otherwise.
pub proof fn lemma_exit_code_reports_window(plan: Plan, events: Seq<Event>)
    requires
        plan.watch_window,
    ensures
        run(plan, events).pending() matches Action::Exit { code } ==> (code == 0
            <==> found_during(Supervisor::start(plan), events)) && (code == 0 || code == 1),
{
    lemma_reachable(plan, events);
}

/// Without a window title, a forced exit always carries 0.
pub proof fn lemma_exit_code_without_window(plan: Plan, events: Seq<Event>)
    requires
        !plan.watch_window,
    ensures
        run(plan, events).pending() matches Action::Exit { code } ==> code == 0,
{
    lemma_reachable(plan, events);
}

} // verus!
