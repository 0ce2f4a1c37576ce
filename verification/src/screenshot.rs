//! Screenshot tool: where captures are saved and the shell command that
//! takes one.

use vstd::prelude::*;
use crate::paths::{join, path_join};
use crate::text::{concat2, str_eq};

verus! {

/// `~/Pictures` for the given `$HOME` value (`/tmp/Pictures` when unset).
pub open spec fn pictures_dir_of(home: Option<Seq<char>>) -> Seq<char> {
    match home {
        Some(h) => join(h, "Pictures"@),
        None => join("/tmp"@, "Pictures"@),
    }
}

/// The folder captures are saved to.
pub fn pictures_dir(home: Option<&str>) -> (res: String)
    ensures
        res@ == pictures_dir_of(match home { Some(h) => Some(h@), None => None }),
{
    match home {
        Some(h) => path_join(h, "Pictures"),
        None => path_join("/tmp", "Pictures"),
    }
}

/// `Screenshot_{timestamp}.png` inside `dir`.
pub fn screenshot_path(dir: &str, timestamp: &str) -> (res: String)
    ensures
        res@ == join(dir@, "Screenshot_"@ + timestamp@ + ".png"@),
{
    let mut name = concat2("Screenshot_", timestamp);
    name.append(".png");
    path_join(dir, name.as_str())
}

/// The shell command for a capture mode: `region` selects an area with
/// `slurp`, `window` captures Hyprland's active window, anything else the
/// whole screen; the image goes to `path`.
pub open spec fn capture_command_of(mode: Seq<char>, path: Seq<char>) -> Seq<char> {
    if mode == "region"@ {
        "slurp | grim -g - '"@ + path + "'"@
    } else if mode == "window"@ {
        "hyprctl -j activewindow > /tmp/window.json && grim -l $(cat /tmp/window.json | grep -o '\"address\":[^,]*' | head -1 | cut -d'\"' -f4) '"@
            + path + "'"@
    } else {
        "grim -t png '"@ + path + "'"@
    }
}

/// The shell command that captures in `mode` to `path_str`.
pub fn build_command(mode: &str, path_str: &str) -> (res: String)
    ensures
        res@ == capture_command_of(mode@, path_str@),
{
    let mut cmd = if str_eq(mode, "region") {
        concat2("slurp | grim -g - '", path_str)
    } else if str_eq(mode, "window") {
        concat2(
            "hyprctl -j activewindow > /tmp/window.json && grim -l $(cat /tmp/window.json | grep -o '\"address\":[^,]*' | head -1 | cut -d'\"' -f4) '",
            path_str,
        )
    } else {
        concat2("grim -t png '", path_str)
    };
    cmd.append("'");
    cmd
}

} // verus!
