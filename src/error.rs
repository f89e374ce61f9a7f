use vstd::prelude::*;

verus! {

/// The fatal conditions of a run.
#[derive(Debug, Clone, Copy, PartialEq, Eq, Structural)]
pub enum RunError {
    /// No override, search-path match or platform default resolved to an executable.
    ExecutableNotFound,
    /// Creating the target or the display-server process failed.
    SpawnFailed,
    /// Polling, killing or reaping a supervised process failed.
    PollIoError,
}

impl RunError {
    /// What a user can do about the error, where there is a remedy to name.
    pub fn hint(&self) -> (r: Option<&'static str>)
        ensures
            r is Some <==> *self == RunError::ExecutableNotFound,
            *self == RunError::ExecutableNotFound ==> r->0@
                == "Run `cargo reaper -h` for help, or override the default executable path with `--exec <PATH>`."@,
    {
        match self {
            RunError::ExecutableNotFound => Some(
                "Run `cargo reaper -h` for help, or override the default executable path with `--exec <PATH>`.",
            ),
            _ => None,
        }
    }
}

} // verus!
