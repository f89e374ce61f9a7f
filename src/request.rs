//! What a caller asks of one run.
use std::path::PathBuf;

use vstd::prelude::*;

use crate::cli::Stdio;
use crate::supervisor::Plan;

verus! {

/// One run of the target, as parsed and validated by the caller. A window
/// title and keep-going are meant for headless runs, keep-going also for runs
/// with a window title and a timeout.
#[derive(Debug)]
pub struct RunRequest {
    /// An explicit executable, bypassing discovery.
    pub executable: Option<PathBuf>,
    /// A project file handed to the target as its argument.
    pub project: Option<PathBuf>,
    /// Whether the target runs under a virtual display server.
    pub headless: bool,
    /// The virtual display's identifier, used in headless mode only.
    pub display: String,
    /// The title of the window whose appearance signals readiness.
    pub window_title: Option<String>,
    /// Whether the run goes on after the window has been found.
    pub keep_going: bool,
    /// The time the run may last, in milliseconds.
    pub timeout_ms: Option<u64>,
    pub stdin: Stdio,
    pub stdout: Stdio,
    pub stderr: Stdio,
}

impl RunRequest {
    /// What of the request decides the course of the run.
    pub fn plan(&self) -> (p: Plan)
        ensures
            p == (Plan {
                headless: self.headless,
                watch_window: self.window_title is Some,
                keep_going: self.keep_going,
                timeout_ms: self.timeout_ms,
            }),
    {
        Plan {
            headless: self.headless,
            watch_window: self.window_title.is_some(),
            keep_going: self.keep_going,
            timeout_ms: self.timeout_ms,
        }
    }
}

} // verus!
