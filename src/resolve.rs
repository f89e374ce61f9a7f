//! The executable resolver: which REAPER binary a run launches.
use std::path::PathBuf;

use vstd::prelude::*;

use crate::error::RunError;
use crate::platform::Platform;

verus! {

/// std's `PathBuf`, carried through as it is: nothing here looks inside a path.
#[verifier::external_type_specification]
#[verifier::external_body]
pub struct ExPathBuf(PathBuf);

/// The name under which the REAPER binary is looked up.
pub const BINARY_NAME: &'static str = "reaper";

/// Where a resolved executable came from.
#[derive(Debug, Clone, Copy, PartialEq, Eq, Structural)]
pub enum ExecutableSource {
    /// Given explicitly by the caller, bypassing discovery.
    Override,
    /// Found by name on the executable search path.
    SearchPath,
    /// The platform's default installation.
    GlobalDefault,
}

/// The executable that a run launches.
#[derive(Debug)]
pub struct Executable {
    pub path: PathBuf,
    pub source: ExecutableSource,
}

/// Relies on `which::which`: the first executable file named `name` in the
/// directories of `PATH`, relative entries taken from the current directory.
/// What it finds depends on the environment and the filesystem, so nothing is
/// stated of it.
#[verifier::external_body]
fn find_on_search_path(name: &str) -> Option<PathBuf> {
    which::which(name).ok()
}

/// Relies on `which::which_global`: as `which::which`, without the current
/// directory. Nothing is stated of what it finds.
#[verifier::external_body]
fn find_on_search_path_global(name: &str) -> Option<PathBuf> {
    which::which_global(name).ok()
}

/// Relies on std's `PathBuf::from`: the path spelled by `s`.
#[verifier::external_body]
fn path_from(s: &str) -> PathBuf {
    PathBuf::from(s)
}

/// Relies on std's `Path::exists`: whether the filesystem has an entry at `p`
/// right now. Nothing is stated of the answer.
#[verifier::external_body]
fn path_exists(p: &PathBuf) -> bool {
    p.exists()
}

/// Picks the executable by priority: an override first, then a search-path
/// match, then the platform default.
pub fn choose_executable(
    override_path: Option<PathBuf>,
    on_search_path: Option<PathBuf>,
    global_default: Option<PathBuf>,
) -> (r: Result<Executable, RunError>)
    ensures
        match (override_path, on_search_path, global_default) {
            (Some(p), _, _) => r == Ok::<Executable, RunError>(
                Executable { path: p, source: ExecutableSource::Override },
            ),
            (None, Some(p), _) => r == Ok::<Executable, RunError>(
                Executable { path: p, source: ExecutableSource::SearchPath },
            ),
            (None, None, Some(p)) => r == Ok::<Executable, RunError>(
                Executable { path: p, source: ExecutableSource::GlobalDefault },
            ),
            (None, None, None) => r == Err::<Executable, RunError>(RunError::ExecutableNotFound),
        },
{
    match override_path {
        Some(p) => Ok(Executable { path: p, source: ExecutableSource::Override }),
        None => match on_search_path {
            Some(p) => Ok(Executable { path: p, source: ExecutableSource::SearchPath }),
            None => match global_default {
                Some(p) => Ok(Executable { path: p, source: ExecutableSource::GlobalDefault }),
                None => Err(RunError::ExecutableNotFound),
            },
        },
    }
}

/// The outcome of a default-installation lookup: a missing installation is
/// [`RunError::ExecutableNotFound`].
pub fn _locate_global_default(found: Option<PathBuf>) -> (r: Result<PathBuf, RunError>)
    ensures
        match found {
            Some(p) => r == Ok::<PathBuf, RunError>(p),
            None => r == Err::<PathBuf, RunError>(RunError::ExecutableNotFound),
        },
{
    match found {
        Some(p) => Ok(p),
        None => Err(RunError::ExecutableNotFound),
    }
}

/// The platform's default REAPER installation: on Linux a search-path lookup
/// that ignores the current directory, elsewhere the fixed install location if
/// it exists.
pub fn locate_global_default(platform: Platform) -> (r: Result<PathBuf, RunError>)
    ensures
        r is Err ==> r == Err::<PathBuf, RunError>(RunError::ExecutableNotFound),
{
    let found = match platform.install_location() {
        None => find_on_search_path_global(BINARY_NAME),
        Some(location) => {
            let p = path_from(location);
            if path_exists(&p) {
                Some(p)
            } else {
                None
            }
        },
    };
    _locate_global_default(found)
}

/// Resolves the executable to launch. An override is taken as it is, without a
/// lookup; otherwise the search path is tried before the platform default.
pub fn resolve(override_path: Option<PathBuf>, platform: Platform) -> (r: Result<
    Executable,
    RunError,
>)
    ensures
        override_path matches Some(p) ==> r == Ok::<Executable, RunError>(
            Executable { path: p, source: ExecutableSource::Override },
        ),
        override_path is None ==> match r {
            Ok(e) => e.source != ExecutableSource::Override,
            Err(err) => err == RunError::ExecutableNotFound,
        },
{
    if override_path.is_some() {
        return choose_executable(override_path, None, None);
    }
    let on_search_path = find_on_search_path(BINARY_NAME);
    if on_search_path.is_some() {
        return choose_executable(None, on_search_path, None);
    }
    let global_default = match locate_global_default(platform) {
        Ok(p) => Some(p),
        Err(_) => None,
    };
    choose_executable(None, None, global_default)
}

} // verus!
