//! The lifecycle supervisor: a state machine that decides, one event at a
//! time, what the driver does next with the target and display-server
//! processes, and how the run ends.
use vstd::prelude::*;

use crate::error::RunError;

verus! {

/// The fixed interval between two polls of a timed run, in milliseconds.
pub const POLL_INTERVAL_MS: u64 = 1000;

/// What of a run request decides the course of the run.
#[derive(Debug, Clone, Copy, PartialEq, Eq, Structural)]
pub struct Plan {
    /// Whether the target runs under a virtual display server.
    pub headless: bool,
    /// Whether a window title is configured for readiness detection.
    pub watch_window: bool,
    /// Whether the run goes on after the window has been found.
    pub keep_going: bool,
    /// The time the run may last, counted from the target's spawn.
    pub timeout_ms: Option<u64>,
}

/// The readiness flag of a timed run.
#[derive(Debug, Clone, Copy, PartialEq, Eq, Structural)]
pub enum Search {
    /// The window locator has not been asked yet.
    NotSearched,
    /// The window locator was asked and did not find the window.
    NotFound,
    /// The window locator found the window.
    Found,
}

/// How a run ends.
#[derive(Debug, Clone, Copy, PartialEq, Eq, Structural)]
pub enum Outcome {
    /// The target exited on its own: its status is the run's result.
    Natural,
    /// Both processes were killed and the tool exits with `code`.
    Forced { code: i32 },
    /// A fatal error ends the run.
    Failed { error: RunError },
}

/// The steps of the ordered teardown: the target first, then the display server.
#[derive(Debug, Clone, Copy, PartialEq, Eq, Structural)]
pub enum Teardown {
    KillTarget,
    ReapTarget,
    KillDisplay,
    ReapDisplay,
}

/// Where a run stands.
#[derive(Debug, Clone, Copy, PartialEq, Eq, Structural)]
pub enum Phase {
    /// Starting: the display server is to be spawned.
    SpawningDisplay,
    /// Starting: the target is to be spawned.
    SpawningTarget,
    /// Running, timed: the window locator is to be asked.
    Probing,
    /// Running, timed: the target is to be polled without blocking.
    Polling,
    /// Running, timed: one poll interval is to pass.
    Sleeping,
    /// Running, untimed: the target is to be waited on.
    AwaitingTarget,
    /// The target exited on its own: the display server is to be waited on.
    AwaitingDisplay,
    /// The processes are being released in order, before the run ends with `outcome`.
    Terminating { step: Teardown, outcome: Outcome },
    /// The run is over.
    Exited { outcome: Outcome },
}

/// The next thing the driver does.
#[derive(Debug, Clone, Copy, PartialEq, Eq, Structural)]
pub enum Action {
    /// Spawn the virtual display server.
    SpawnDisplay,
    /// Spawn the target.
    SpawnTarget,
    /// Ask the window locator whether the window exists.
    ProbeWindow,
    /// Poll the target for exit without blocking.
    PollTarget,
    /// Sleep for `ms` milliseconds.
    Sleep { ms: u64 },
    /// Block until the target has exited and is reaped.
    WaitTarget,
    /// Block until the display server has exited and is reaped.
    WaitDisplay,
    /// Kill the target.
    KillTarget,
    /// Kill the display server.
    KillDisplay,
    /// Terminate the supervising tool with `code`.
    Exit { code: i32 },
    /// Return the target's natural exit status.
    Finish,
    /// Return `error`.
    Fail { error: RunError },
}

/// What the driver reports after performing an action.
#[derive(Debug, Clone, Copy, PartialEq, Eq, Structural)]
pub enum Event {
    /// The process was spawned; `now_ms` is the clock reading right after.
    Spawned { now_ms: u64 },
    /// The window locator answered.
    Probed { found: bool },
    /// A non-blocking poll answered whether the target has exited (and was
    /// reaped); `now_ms` is the clock reading right after.
    Polled { exited: bool, now_ms: u64 },
    /// The sleep is over.
    Slept,
    /// The kill or the wait succeeded.
    Done,
    /// The spawn, poll, kill or wait failed.
    Failed,
}

/// The state of one supervised run.
#[derive(Debug, Clone, Copy, PartialEq, Eq, Structural)]
pub struct Supervisor {
    pub plan: Plan,
    pub phase: Phase,
    pub search: Search,
    /// The clock reading at which the target was spawned.
    pub started_ms: u64,
    /// Whether the target has been reaped.
    pub target_reaped: bool,
    /// Whether the display server has been reaped.
    pub display_reaped: bool,
}

/// The action that a phase asks of the driver.
pub open spec fn action_of(phase: Phase) -> Action {
    match phase {
        Phase::SpawningDisplay => Action::SpawnDisplay,
        Phase::SpawningTarget => Action::SpawnTarget,
        Phase::Probing => Action::ProbeWindow,
        Phase::Polling => Action::PollTarget,
        Phase::Sleeping => Action::Sleep { ms: POLL_INTERVAL_MS },
        Phase::AwaitingTarget => Action::WaitTarget,
        Phase::AwaitingDisplay => Action::WaitDisplay,
        Phase::Terminating { step, .. } => match step {
            Teardown::KillTarget => Action::KillTarget,
            Teardown::ReapTarget => Action::WaitTarget,
            Teardown::KillDisplay => Action::KillDisplay,
            Teardown::ReapDisplay => Action::WaitDisplay,
        },
        Phase::Exited { outcome } => match outcome {
            Outcome::Natural => Action::Finish,
            Outcome::Forced { code } => Action::Exit { code },
            Outcome::Failed { error } => Action::Fail { error },
        },
    }
}

/// The outcome of a run whose teardown failed: an earlier error is kept.
pub open spec fn failed_teardown(outcome: Outcome) -> Outcome {
    match outcome {
        Outcome::Failed { error } => Outcome::Failed { error },
        _ => Outcome::Failed { error: RunError::PollIoError },
    }
}

impl Supervisor {
    /// The state in which a run with `plan` begins.
    pub open spec fn start(plan: Plan) -> Supervisor {
        Supervisor {
            plan,
            phase: if plan.headless {
                Phase::SpawningDisplay
            } else {
                Phase::SpawningTarget
            },
            search: Search::NotSearched,
            started_ms: 0,
            target_reaped: false,
            display_reaped: false,
        }
    }

    /// The action that the current state asks of the driver.
    pub open spec fn pending(self) -> Action {
        action_of(self.phase)
    }

    /// The exit code that a forced end of the run carries: failure only where a
    /// window was watched for and never found.
    pub open spec fn outcome_code(self) -> i32 {
        if self.plan.watch_window && self.search != Search::Found {
            1
        } else {
            0
        }
    }

    /// Whether the timeout has elapsed at clock reading `now_ms`.
    pub open spec fn timed_out(self, now_ms: u64) -> bool {
        match self.plan.timeout_ms {
            Some(t) => now_ms >= self.started_ms && now_ms - self.started_ms >= t,
            None => false,
        }
    }

    /// The first step of a poll round: ask the locator while the window is
    /// watched for and not yet found, else poll the target.
    pub open spec fn round_start(self) -> Phase {
        if self.plan.watch_window && self.search != Search::Found {
            Phase::Probing
        } else {
            Phase::Polling
        }
    }

    /// The phase after the target's natural exit.
    pub open spec fn natural_end(self) -> Phase {
        if self.plan.headless {
            Phase::AwaitingDisplay
        } else {
            Phase::Exited { outcome: Outcome::Natural }
        }
    }

    /// The start of the ordered teardown that ends with `outcome`.
    pub open spec fn terminate(outcome: Outcome) -> Phase {
        Phase::Terminating { step: Teardown::KillTarget, outcome }
    }

    /// The state after `event` answers the pending action; an event that does
    /// not answer it leaves the state as it is.
    pub open spec fn next(self, event: Event) -> Supervisor {
        match self.phase {
            Phase::SpawningDisplay => match event {
                Event::Spawned { .. } => Supervisor { phase: Phase::SpawningTarget, ..self },
                Event::Failed => Supervisor {
                    phase: Phase::Exited { outcome: Outcome::Failed { error: RunError::SpawnFailed } },
                    ..self
                },
                _ => self,
            },
            Phase::SpawningTarget => match event {
                Event::Spawned { now_ms } => {
                    let s = Supervisor { started_ms: now_ms, ..self };
                    Supervisor {
                        phase: if self.plan.timeout_ms is Some {
                            s.round_start()
                        } else {
                            Phase::AwaitingTarget
                        },
                        ..s
                    }
                },
                Event::Failed => Supervisor {
                    phase: if self.plan.headless {
                        Phase::Terminating {
                            step: Teardown::KillDisplay,
                            outcome: Outcome::Failed { error: RunError::SpawnFailed },
                        }
                    } else {
                        Phase::Exited { outcome: Outcome::Failed { error: RunError::SpawnFailed } }
                    },
                    ..self
                },
                _ => self,
            },
            Phase::Probing => match event {
                Event::Probed { found } => if !found {
                    Supervisor { phase: Phase::Polling, search: Search::NotFound, ..self }
                } else if self.plan.keep_going {
                    Supervisor { phase: Phase::Polling, search: Search::Found, ..self }
                } else {
                    Supervisor {
                        phase: Self::terminate(Outcome::Forced { code: 0 }),
                        search: Search::Found,
                        ..self
                    }
                },
                _ => self,
            },
            Phase::Polling => match event {
                Event::Polled { exited, now_ms } => if exited {
                    let s = Supervisor { target_reaped: true, ..self };
                    Supervisor {
                        phase: if self.plan.watch_window {
                            Self::terminate(Outcome::Forced { code: self.outcome_code() })
                        } else {
                            self.natural_end()
                        },
                        ..s
                    }
                } else if self.timed_out(now_ms) {
                    Supervisor {
                        phase: Self::terminate(Outcome::Forced { code: self.outcome_code() }),
                        ..self
                    }
                } else {
                    Supervisor { phase: Phase::Sleeping, ..self }
                },
                Event::Failed => Supervisor {
                    phase: Self::terminate(Outcome::Failed { error: RunError::PollIoError }),
                    ..self
                },
                _ => self,
            },
            Phase::Sleeping => match event {
                Event::Slept => Supervisor { phase: self.round_start(), ..self },
                _ => self,
            },
            Phase::AwaitingTarget => match event {
                Event::Done => Supervisor {
                    phase: self.natural_end(),
                    target_reaped: true,
                    ..self
                },
                Event::Failed => Supervisor {
                    phase: Self::terminate(Outcome::Failed { error: RunError::PollIoError }),
                    ..self
                },
                _ => self,
            },
            Phase::AwaitingDisplay => match event {
                Event::Done => Supervisor {
                    phase: Phase::Exited { outcome: Outcome::Natural },
                    display_reaped: true,
                    ..self
                },
                Event::Failed => Supervisor {
                    phase: Phase::Terminating {
                        step: Teardown::KillDisplay,
                        outcome: Outcome::Failed { error: RunError::PollIoError },
                    },
                    ..self
                },
                _ => self,
            },
            Phase::Terminating { step, outcome } => match event {
                Event::Done => match step {
                    Teardown::KillTarget => Supervisor {
                        phase: Phase::Terminating { step: Teardown::ReapTarget, outcome },
                        ..self
                    },
                    Teardown::ReapTarget => Supervisor {
                        phase: if self.plan.headless {
                            Phase::Terminating { step: Teardown::KillDisplay, outcome }
                        } else {
                            Phase::Exited { outcome }
                        },
                        target_reaped: true,
                        ..self
                    },
                    Teardown::KillDisplay => Supervisor {
                        phase: Phase::Terminating { step: Teardown::ReapDisplay, outcome },
                        ..self
                    },
                    Teardown::ReapDisplay => Supervisor {
                        phase: Phase::Exited { outcome },
                        display_reaped: true,
                        ..self
                    },
                },
                Event::Failed => Supervisor {
                    phase: Phase::Exited { outcome: failed_teardown(outcome) },
                    ..self
                },
                _ => self,
            },
            Phase::Exited { .. } => self,
        }
    }
}

/// The action that `phase` asks of the driver.
pub fn phase_action(phase: Phase) -> (a: Action)
    ensures
        a == action_of(phase),
{
    match phase {
        Phase::SpawningDisplay => Action::SpawnDisplay,
        Phase::SpawningTarget => Action::SpawnTarget,
        Phase::Probing => Action::ProbeWindow,
        Phase::Polling => Action::PollTarget,
        Phase::Sleeping => Action::Sleep { ms: POLL_INTERVAL_MS },
        Phase::AwaitingTarget => Action::WaitTarget,
        Phase::AwaitingDisplay => Action::WaitDisplay,
        Phase::Terminating { step, .. } => match step {
            Teardown::KillTarget => Action::KillTarget,
            Teardown::ReapTarget => Action::WaitTarget,
            Teardown::KillDisplay => Action::KillDisplay,
            Teardown::ReapDisplay => Action::WaitDisplay,
        },
        Phase::Exited { outcome } => match outcome {
            Outcome::Natural => Action::Finish,
            Outcome::Forced { code } => Action::Exit { code },
            Outcome::Failed { error } => Action::Fail { error },
        },
    }
}

impl Supervisor {
    /// A run with `plan`, before anything was spawned.
    pub fn new(plan: Plan) -> (s: Supervisor)
        ensures
            s == Supervisor::start(plan),
    {
        Supervisor {
            plan,
            phase: if plan.headless {
                Phase::SpawningDisplay
            } else {
                Phase::SpawningTarget
            },
            search: Search::NotSearched,
            started_ms: 0,
            target_reaped: false,
            display_reaped: false,
        }
    }

    /// The action that the driver performs next.
    pub fn action(&self) -> (a: Action)
        ensures
            a == self.pending(),
    {
        phase_action(self.phase)
    }

    fn forced_code(&self) -> (code: i32)
        ensures
            code == self.outcome_code(),
    {
        if self.plan.watch_window && self.search != Search::Found {
            1
        } else {
            0
        }
    }

    fn has_timed_out(&self, now_ms: u64) -> (r: bool)
        ensures
            r == self.timed_out(now_ms),
    {
        match self.plan.timeout_ms {
            Some(t) => now_ms >= self.started_ms && now_ms - self.started_ms >= t,
            None => false,
        }
    }

    fn next_round(&self) -> (p: Phase)
        ensures
            p == self.round_start(),
    {
        if self.plan.watch_window && self.search != Search::Found {
            Phase::Probing
        } else {
            Phase::Polling
        }
    }

    fn after_natural_exit(&self) -> (p: Phase)
        ensures
            p == self.natural_end(),
    {
        if self.plan.headless {
            Phase::AwaitingDisplay
        } else {
            Phase::Exited { outcome: Outcome::Natural }
        }
    }

    /// Takes the driver's report on the pending action and returns the next one.
    pub fn step(&mut self, event: Event) -> (a: Action)
        ensures
            *final(self) == old(self).next(event),
            a == final(self).pending(),
    {
        match self.phase {
            Phase::SpawningDisplay => match event {
                Event::Spawned { .. } => {
                    self.phase = Phase::SpawningTarget;
                },
                Event::Failed => {
                    self.phase = Phase::Exited {
                        outcome: Outcome::Failed { error: RunError::SpawnFailed },
                    };
                },
                _ => {},
            },
            Phase::SpawningTarget => match event {
                Event::Spawned { now_ms } => {
                    self.started_ms = now_ms;
                    self.phase = if self.plan.timeout_ms.is_some() {
                        self.next_round()
                    } else {
                        Phase::AwaitingTarget
                    };
                },
                Event::Failed => {
                    self.phase = if self.plan.headless {
                        Phase::Terminating {
                            step: Teardown::KillDisplay,
                            outcome: Outcome::Failed { error: RunError::SpawnFailed },
                        }
                    } else {
                        Phase::Exited { outcome: Outcome::Failed { error: RunError::SpawnFailed } }
                    };
                },
                _ => {},
            },
            Phase::Probing => match event {
                Event::Probed { found } => {
                    if !found {
                        self.search = Search::NotFound;
                        self.phase = Phase::Polling;
                    } else if self.plan.keep_going {
                        self.search = Search::Found;
                        self.phase = Phase::Polling;
                    } else {
                        self.search = Search::Found;
                        self.phase = Phase::Terminating {
                            step: Teardown::KillTarget,
                            outcome: Outcome::Forced { code: 0 },
                        };
                    }
                },
                _ => {},
            },
            Phase::Polling => match event {
                Event::Polled { exited, now_ms } => {
                    if exited {
                        self.target_reaped = true;
                        self.phase = if self.plan.watch_window {
                            Phase::Terminating {
                                step: Teardown::KillTarget,
                                outcome: Outcome::Forced { code: self.forced_code() },
                            }
                        } else {
                            self.after_natural_exit()
                        };
                    } else if self.has_timed_out(now_ms) {
                        self.phase = Phase::Terminating {
                            step: Teardown::KillTarget,
                            outcome: Outcome::Forced { code: self.forced_code() },
                        };
                    } else {
                        self.phase = Phase::Sleeping;
                    }
                },
                Event::Failed => {
                    self.phase = Phase::Terminating {
                        step: Teardown::KillTarget,
                        outcome: Outcome::Failed { error: RunError::PollIoError },
                    };
                },
                _ => {},
            },
            Phase::Sleeping => match event {
                Event::Slept => {
                    self.phase = self.next_round();
                },
                _ => {},
            },
            Phase::AwaitingTarget => match event {
                Event::Done => {
                    self.target_reaped = true;
                    self.phase = self.after_natural_exit();
                },
                Event::Failed => {
                    self.phase = Phase::Terminating {
                        step: Teardown::KillTarget,
                        outcome: Outcome::Failed { error: RunError::PollIoError },
                    };
                },
                _ => {},
            },
            Phase::AwaitingDisplay => match event {
                Event::Done => {
                    self.display_reaped = true;
                    self.phase = Phase::Exited { outcome: Outcome::Natural };
                },
                Event::Failed => {
                    self.phase = Phase::Terminating {
                        step: Teardown::KillDisplay,
                        outcome: Outcome::Failed { error: RunError::PollIoError },
                    };
                },
                _ => {},
            },
            Phase::Terminating { step, outcome } => match event {
                Event::Done => match step {
                    Teardown::KillTarget => {
                        self.phase = Phase::Terminating { step: Teardown::ReapTarget, outcome };
                    },
                    Teardown::ReapTarget => {
                        self.target_reaped = true;
                        self.phase = if self.plan.headless {
                            Phase::Terminating { step: Teardown::KillDisplay, outcome }
                        } else {
                            Phase::Exited { outcome }
                        };
                    },
                    Teardown::KillDisplay => {
                        self.phase = Phase::Terminating { step: Teardown::ReapDisplay, outcome };
                    },
                    Teardown::ReapDisplay => {
                        self.display_reaped = true;
                        self.phase = Phase::Exited { outcome };
                    },
                },
                Event::Failed => {
                    let failure = match outcome {
                        Outcome::Failed { error } => Outcome::Failed { error },
                        _ => Outcome::Failed { error: RunError::PollIoError },
                    };
                    self.phase = Phase::Exited { outcome: failure };
                },
                _ => {},
            },
            Phase::Exited { .. } => {},
        }
        phase_action(self.phase)
    }
}

} // verus!
