use vstd::prelude::*;

verus! {

/// The operating system, and on Windows the architecture, that decides where a
/// REAPER installation lives and how plugin libraries are named.
#[derive(Debug, Clone, Copy, PartialEq, Eq, Structural)]
pub enum Platform {
    Linux,
    MacOs,
    WindowsX64,
    WindowsX86,
    WindowsArm64,
}

impl Platform {
    pub open spec fn is_windows(self) -> bool {
        self == Platform::WindowsX64 || self == Platform::WindowsX86 || self
            == Platform::WindowsArm64
    }

    /// The fixed location of a default REAPER installation; Linux has none.
    pub fn install_location(&self) -> (r: Option<&'static str>)
        ensures
            r is None <==> *self == Platform::Linux,
            *self == Platform::MacOs ==> r->0@ == "/Applications/REAPER.app/Contents/MacOS/REAPER"@,
            *self == Platform::WindowsX64 ==> r->0@ == "C:\\Program Files\\REAPER (x64)\\reaper.exe"@,
            *self == Platform::WindowsX86 ==> r->0@ == "C:\\Program Files (x86)\\REAPER\\reaper.exe"@,
            *self == Platform::WindowsArm64 ==> r->0@ == "C:\\Program Files\\REAPER (ARM64)\\reaper.exe"@,
    {
        match self {
            Platform::Linux => None,
            Platform::MacOs => Some("/Applications/REAPER.app/Contents/MacOS/REAPER"),
            Platform::WindowsX64 => Some("C:\\Program Files\\REAPER (x64)\\reaper.exe"),
            Platform::WindowsX86 => Some("C:\\Program Files (x86)\\REAPER\\reaper.exe"),
            Platform::WindowsArm64 => Some("C:\\Program Files\\REAPER (ARM64)\\reaper.exe"),
        }
    }
}

} // verus!
