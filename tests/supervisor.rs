use cargo_reaper::error::RunError;
use cargo_reaper::supervisor::{Action, Event, Plan, Supervisor, POLL_INTERVAL_MS};

fn plan(headless: bool, watch_window: bool, keep_going: bool, timeout_ms: Option<u64>) -> Plan {
    Plan { headless, watch_window, keep_going, timeout_ms }
}

/// Feeds `events` to a fresh run and returns every action handed out, the
/// first one included.
fn drive(plan: Plan, events: &[Event]) -> Vec<Action> {
    let mut sup = Supervisor::new(plan);
    let mut actions = vec![sup.action()];
    for e in events {
        actions.push(sup.step(*e));
    }
    actions
}

fn is_exit(a: &Action) -> bool {
    matches!(a, Action::Exit { .. })
}

#[test]
fn timeout_without_title_kills_and_exits_zero_foreground() {
    let events = [
        Event::Spawned { now_ms: 0 },
        Event::Polled { exited: false, now_ms: 0 },
        Event::Slept,
        Event::Polled { exited: false, now_ms: 1000 },
        Event::Slept,
        Event::Polled { exited: false, now_ms: 2000 },
        Event::Slept,
        Event::Polled { exited: false, now_ms: 3001 },
        Event::Done,
        Event::Done,
    ];
    let actions = drive(plan(false, false, false, Some(3000)), &events);
    assert_eq!(
        actions,
        vec![
            Action::SpawnTarget,
            Action::PollTarget,
            Action::Sleep { ms: POLL_INTERVAL_MS },
            Action::PollTarget,
            Action::Sleep { ms: 1000 },
            Action::PollTarget,
            Action::Sleep { ms: 1000 },
            Action::PollTarget,
            Action::KillTarget,
            Action::WaitTarget,
            Action::Exit { code: 0 },
        ]
    );
}

#[test]
fn timeout_without_title_kills_both_and_exits_zero_headless() {
    let events = [
        Event::Spawned { now_ms: 5 },
        Event::Spawned { now_ms: 10 },
        Event::Polled { exited: false, now_ms: 10 },
        Event::Slept,
        Event::Polled { exited: false, now_ms: 1010 },
        Event::Slept,
        Event::Polled { exited: false, now_ms: 2010 },
        Event::Slept,
        Event::Polled { exited: false, now_ms: 3010 },
        Event::Done,
        Event::Done,
        Event::Done,
        Event::Done,
    ];
    let actions = drive(plan(true, false, false, Some(3000)), &events);
    assert_eq!(actions[0], Action::SpawnDisplay);
    assert_eq!(actions[1], Action::SpawnTarget);
    // timed from the target's spawn at 10 ms: 2010 is not yet 3 s
    assert_eq!(actions[7], Action::Sleep { ms: 1000 });
    assert_eq!(
        actions[9..].to_vec(),
        vec![
            Action::KillTarget,
            Action::WaitTarget,
            Action::KillDisplay,
            Action::WaitDisplay,
            Action::Exit { code: 0 },
        ]
    );
}

#[test]
fn window_found_without_keep_going_exits_zero_early() {
    let events = [
        Event::Spawned { now_ms: 0 },
        Event::Spawned { now_ms: 0 },
        Event::Probed { found: false },
        Event::Polled { exited: false, now_ms: 0 },
        Event::Slept,
        Event::Probed { found: true },
        Event::Done,
        Event::Done,
        Event::Done,
        Event::Done,
    ];
    let actions = drive(plan(true, true, false, Some(5000)), &events);
    assert_eq!(
        actions,
        vec![
            Action::SpawnDisplay,
            Action::SpawnTarget,
            Action::ProbeWindow,
            Action::PollTarget,
            Action::Sleep { ms: 1000 },
            Action::ProbeWindow,
            Action::KillTarget,
            Action::WaitTarget,
            Action::KillDisplay,
            Action::WaitDisplay,
            Action::Exit { code: 0 },
        ]
    );
}

#[test]
fn window_found_with_keep_going_exits_zero_at_natural_exit() {
    let events = [
        Event::Spawned { now_ms: 0 },
        Event::Spawned { now_ms: 0 },
        Event::Probed { found: false },
        Event::Polled { exited: false, now_ms: 0 },
        Event::Slept,
        Event::Probed { found: true },
        Event::Polled { exited: false, now_ms: 1000 },
        Event::Slept,
        Event::Polled { exited: false, now_ms: 2000 },
        Event::Slept,
        Event::Polled { exited: false, now_ms: 3000 },
        Event::Slept,
        Event::Polled { exited: true, now_ms: 4000 },
        Event::Done,
        Event::Done,
        Event::Done,
        Event::Done,
    ];
    let actions = drive(plan(true, true, true, Some(5000)), &events);
    // the window is not looked for again once found
    assert_eq!(actions[6], Action::PollTarget);
    assert_eq!(actions[8], Action::PollTarget);
    assert_eq!(actions.iter().filter(|a| **a == Action::ProbeWindow).count(), 2);
    assert_eq!(actions.iter().filter(|a| is_exit(a)).count(), 1);
    assert_eq!(*actions.last().unwrap(), Action::Exit { code: 0 });
    assert_eq!(actions[13], Action::KillTarget);
}

#[test]
fn keep_going_without_window_exits_one_at_timeout() {
    let events = [
        Event::Spawned { now_ms: 0 },
        Event::Spawned { now_ms: 0 },
        Event::Probed { found: false },
        Event::Polled { exited: false, now_ms: 0 },
        Event::Slept,
        Event::Probed { found: false },
        Event::Polled { exited: false, now_ms: 2000 },
        Event::Done,
        Event::Done,
        Event::Done,
        Event::Done,
    ];
    let actions = drive(plan(true, true, true, Some(2000)), &events);
    assert_eq!(actions[7], Action::KillTarget);
    assert_eq!(*actions.last().unwrap(), Action::Exit { code: 1 });
}

#[test]
fn target_exit_before_window_is_failure() {
    let events = [
        Event::Spawned { now_ms: 0 },
        Event::Spawned { now_ms: 0 },
        Event::Probed { found: false },
        Event::Polled { exited: true, now_ms: 300 },
        Event::Done,
        Event::Done,
        Event::Done,
        Event::Done,
    ];
    let actions = drive(plan(true, true, false, Some(5000)), &events);
    assert_eq!(actions[4], Action::KillTarget);
    assert_eq!(*actions.last().unwrap(), Action::Exit { code: 1 });
}

#[test]
fn window_title_without_keep_going_times_out_with_one() {
    let events = [
        Event::Spawned { now_ms: 0 },
        Event::Spawned { now_ms: 0 },
        Event::Probed { found: false },
        Event::Polled { exited: false, now_ms: 1000 },
        Event::Done,
        Event::Done,
        Event::Done,
        Event::Done,
    ];
    let actions = drive(plan(true, true, false, Some(1000)), &events);
    assert_eq!(*actions.last().unwrap(), Action::Exit { code: 1 });
}

#[test]
fn untimed_foreground_run_returns_natural_status() {
    let actions = drive(plan(false, false, false, None), &[Event::Spawned { now_ms: 0 }, Event::Done]);
    assert_eq!(actions, vec![Action::SpawnTarget, Action::WaitTarget, Action::Finish]);
}

#[test]
fn untimed_headless_run_waits_on_display_server() {
    let events = [Event::Spawned { now_ms: 0 }, Event::Spawned { now_ms: 0 }, Event::Done, Event::Done];
    let actions = drive(plan(true, true, false, None), &events);
    assert_eq!(
        actions,
        vec![
            Action::SpawnDisplay,
            Action::SpawnTarget,
            Action::WaitTarget,
            Action::WaitDisplay,
            Action::Finish,
        ]
    );
    assert!(!actions.iter().any(is_exit));
}

#[test]
fn timed_natural_exit_without_title_is_not_forced() {
    let events = [
        Event::Spawned { now_ms: 0 },
        Event::Spawned { now_ms: 0 },
        Event::Polled { exited: false, now_ms: 0 },
        Event::Slept,
        Event::Polled { exited: true, now_ms: 1000 },
        Event::Done,
    ];
    let actions = drive(plan(true, false, false, Some(5000)), &events);
    assert_eq!(actions[5], Action::WaitDisplay);
    assert_eq!(actions[6], Action::Finish);
    assert!(!actions.iter().any(is_exit));

    let actions = drive(
        plan(false, false, false, Some(5000)),
        &[Event::Spawned { now_ms: 0 }, Event::Polled { exited: true, now_ms: 10 }],
    );
    assert_eq!(actions, vec![Action::SpawnTarget, Action::PollTarget, Action::Finish]);
}

#[test]
fn target_spawn_failure_tears_down_display_server() {
    let events = [Event::Spawned { now_ms: 0 }, Event::Failed, Event::Done, Event::Done];
    let actions = drive(plan(true, true, false, Some(5000)), &events);
    assert_eq!(
        actions,
        vec![
            Action::SpawnDisplay,
            Action::SpawnTarget,
            Action::KillDisplay,
            Action::WaitDisplay,
            Action::Fail { error: RunError::SpawnFailed },
        ]
    );
}

#[test]
fn spawn_failure_surfaces_before_polling() {
    let actions = drive(plan(false, false, false, Some(5000)), &[Event::Failed]);
    assert_eq!(actions, vec![Action::SpawnTarget, Action::Fail { error: RunError::SpawnFailed }]);
    let actions = drive(plan(true, false, false, None), &[Event::Failed]);
    assert_eq!(actions, vec![Action::SpawnDisplay, Action::Fail { error: RunError::SpawnFailed }]);
}

#[test]
fn poll_failure_releases_processes_then_fails() {
    let events = [
        Event::Spawned { now_ms: 0 },
        Event::Spawned { now_ms: 0 },
        Event::Failed,
        Event::Done,
        Event::Done,
        Event::Done,
        Event::Done,
    ];
    let actions = drive(plan(true, false, false, Some(5000)), &events);
    assert_eq!(actions[3], Action::KillTarget);
    assert_eq!(*actions.last().unwrap(), Action::Fail { error: RunError::PollIoError });
}

#[test]
fn teardown_failure_is_fatal_before_exit() {
    let events = [
        Event::Spawned { now_ms: 0 },
        Event::Polled { exited: false, now_ms: 100 },
        Event::Failed,
    ];
    let actions = drive(plan(false, false, false, Some(100)), &events);
    assert_eq!(actions[2], Action::KillTarget);
    assert_eq!(actions[3], Action::Fail { error: RunError::PollIoError });

    let events = [Event::Spawned { now_ms: 0 }, Event::Failed, Event::Done, Event::Failed];
    let actions = drive(plan(true, false, false, None), &events);
    assert_eq!(actions[3], Action::WaitDisplay);
    assert_eq!(actions[4], Action::Fail { error: RunError::SpawnFailed });
}

#[test]
fn unrelated_event_repeats_pending_action() {
    let mut sup = Supervisor::new(plan(false, false, false, Some(1000)));
    assert_eq!(sup.step(Event::Slept), Action::SpawnTarget);
    assert_eq!(sup.step(Event::Spawned { now_ms: 7 }), Action::PollTarget);
    assert_eq!(sup.step(Event::Done), Action::PollTarget);
    assert_eq!(sup.started_ms, 7);
    // a clock reading before the spawn counts as no time elapsed
    assert_eq!(sup.step(Event::Polled { exited: false, now_ms: 3 }), Action::Sleep { ms: 1000 });
}

#[test]
fn finished_run_stays_finished() {
    let mut sup = Supervisor::new(plan(false, false, false, None));
    sup.step(Event::Spawned { now_ms: 0 });
    assert_eq!(sup.step(Event::Done), Action::Finish);
    assert!(sup.target_reaped);
    assert_eq!(sup.step(Event::Done), Action::Finish);
    assert_eq!(sup.step(Event::Failed), Action::Finish);
}

#[test]
fn failed_display_wait_releases_display_server() {
    let events = [
        Event::Spawned { now_ms: 0 },
        Event::Spawned { now_ms: 0 },
        Event::Done,
        Event::Failed,
        Event::Done,
        Event::Done,
    ];
    let actions = drive(plan(true, false, false, None), &events);
    assert_eq!(
        actions,
        vec![
            Action::SpawnDisplay,
            Action::SpawnTarget,
            Action::WaitTarget,
            Action::WaitDisplay,
            Action::KillDisplay,
            Action::WaitDisplay,
            Action::Fail { error: RunError::PollIoError },
        ]
    );
    assert!(!actions.iter().any(is_exit));
}
