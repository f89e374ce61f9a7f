//! The command lines of the processes that a run starts besides the target.
use vstd::prelude::*;

verus! {

/// The virtual display server.
pub const DISPLAY_SERVER_PROGRAM: &'static str = "Xvfb";

/// The window locator.
pub const WINDOW_LOCATOR_PROGRAM: &'static str = "xdotool";

/// The environment variable that carries the display identifier to the display
/// server, the target and the window locator.
pub const DISPLAY_VARIABLE: &'static str = "DISPLAY";

/// The text of each argument.
pub open spec fn texts(args: Seq<String>) -> Seq<Seq<char>> {
    args.map_values(|a: String| a@)
}

/// The display server's arguments: bound to `display`, one screen with a fixed
/// 1024x768 framebuffer at 24 bits, no TCP listener.
pub fn display_server_args(display: &str) -> (r: Vec<String>)
    ensures
        texts(r@) == seq![
            display@,
            "-screen"@,
            "0"@,
            "1024x768x24"@,
            "-nolisten"@,
            "tcp"@,
        ],
{
    let r = vec![
        display.to_owned(),
        "-screen".to_owned(),
        "0".to_owned(),
        "1024x768x24".to_owned(),
        "-nolisten".to_owned(),
        "tcp".to_owned(),
    ];
    assert(texts(r@) =~= seq![
        display@,
        "-screen"@,
        "0"@,
        "1024x768x24"@,
        "-nolisten"@,
        "tcp"@,
    ]);
    r
}

/// The window locator's arguments: a search for a window named `title`.
pub fn locator_args(title: &str) -> (r: Vec<String>)
    ensures
        texts(r@) == seq!["search"@, "--name"@, title@],
{
    let r = vec!["search".to_owned(), "--name".to_owned(), title.to_owned()];
    assert(texts(r@) =~= seq!["search"@, "--name"@, title@]);
    r
}

} // verus!
