//! The Astra Shell surfaces as state: which taskbar the shell shows, the
//! workspace buttons of the bar, the pinned apps of the dock, and the
//! app grid of the launcher with its search filter and visibility.

use vstd::prelude::*;
use crate::desktop_config::ShellConfig;
use crate::text::{concat2, dec, push_decimal, seq_contains, str_contains, str_eq, to_lowercase, unicode_lowercase};

verus! {

// ---------------------------------------------------------------------
// Taskbar choice
// ---------------------------------------------------------------------

/// The taskbar surface of the shell.
#[derive(Clone, Copy, Debug, PartialEq, Eq, Structural)]
pub enum Taskbar {
    /// The floating dock (Mac mode).
    Dock,
    /// The top bar (Windows mode).
    Bar,
}

impl ShellConfig {
    /// The dock when the taskbar mode is `"mac"`, the bar otherwise.
    pub fn taskbar(&self) -> (res: Taskbar)
        ensures
            res == (if self.taskbar_mode@ == "mac"@ {
                Taskbar::Dock
            } else {
                Taskbar::Bar
            }),
    {
        if str_eq(self.taskbar_mode.as_str(), "mac") {
            Taskbar::Dock
        } else {
            Taskbar::Bar
        }
    }
}

// ---------------------------------------------------------------------
// Bar
// ---------------------------------------------------------------------

/// The number of workspace buttons on the bar (workspaces 1 to 9).
pub const WORKSPACE_COUNT: u32 = 9;

/// The tooltip of the button of workspace `n`.
pub open spec fn workspace_tooltip_of(n: nat) -> Seq<char> {
    "Switch to workspace "@ + dec(n)
}

/// The label and tooltip of the bar button of workspace `n`: the number,
/// and `Switch to workspace {n}`.
pub fn workspace_button(n: u32) -> (res: (String, String))
    requires
        1 <= n <= WORKSPACE_COUNT,
    ensures
        res.0@ == dec(n as nat),
        res.1@ == workspace_tooltip_of(n as nat),
{
    let mut label = String::new();
    push_decimal(&mut label, n as u64);
    let mut tooltip = String::from_str("Switch to workspace ");
    push_decimal(&mut tooltip, n as u64);
    (label, tooltip)
}

// ---------------------------------------------------------------------
// Launcher and dock apps
// ---------------------------------------------------------------------

/// The number of apps in the launcher grid.
pub const APP_COUNT: usize = 8;

/// The number of apps pinned to the dock.
pub const PINNED_COUNT: usize = 4;

/// The launcher's apps, in grid order: icon glyph, name and executable.
pub open spec fn app_of(i: int) -> (Seq<char>, Seq<char>, Seq<char>) {
    if i == 0 {
        ("\u{1F310}"@, "Firefox"@, "firefox"@)
    } else if i == 1 {
        ("\u{1F4C1}"@, "Files"@, "thunar"@)
    } else if i == 2 {
        ("\u{1F4BB}"@, "Terminal"@, "kitty"@)
    } else if i == 3 {
        ("\u{2699}\u{FE0F}"@, "Settings"@, "astra-settings"@)
    } else if i == 4 {
        ("\u{1F4DD}"@, "Text Editor"@, "vim"@)
    } else if i == 5 {
        ("\u{1F3AC}"@, "VLC"@, "vlc"@)
    } else if i == 6 {
        ("\u{1F4CA}"@, "Task Manager"@, "btop"@)
    } else {
        ("\u{1F3A8}"@, "Display Settings"@, "wdisplays"@)
    }
}

/// App `i` of the launcher: (icon, name, executable).
pub fn launcher_app(i: usize) -> (res: (&'static str, &'static str, &'static str))
    requires
        i < APP_COUNT,
    ensures
        (res.0@, res.1@, res.2@) == app_of(i as int),
{
    if i == 0 {
        ("\u{1F310}", "Firefox", "firefox")
    } else if i == 1 {
        ("\u{1F4C1}", "Files", "thunar")
    } else if i == 2 {
        ("\u{1F4BB}", "Terminal", "kitty")
    } else if i == 3 {
        ("\u{2699}\u{FE0F}", "Settings", "astra-settings")
    } else if i == 4 {
        ("\u{1F4DD}", "Text Editor", "vim")
    } else if i == 5 {
        ("\u{1F3AC}", "VLC", "vlc")
    } else if i == 6 {
        ("\u{1F4CA}", "Task Manager", "btop")
    } else {
        ("\u{1F3A8}", "Display Settings", "wdisplays")
    }
}

/// App `i` pinned to the dock: the dock pins the first four launcher apps
/// (Firefox, Files, Terminal, Settings).
pub fn pinned_app(i: usize) -> (res: (&'static str, &'static str, &'static str))
    requires
        i < PINNED_COUNT,
    ensures
        (res.0@, res.1@, res.2@) == app_of(i as int),
{
    launcher_app(i)
}

/// The grid button label of an app: its icon, a line break, its name.
pub open spec fn app_label_of(i: int) -> Seq<char> {
    app_of(i).0 + "\n"@ + app_of(i).1
}

/// The grid button label of launcher app `i`.
pub fn app_label(i: usize) -> (res: String)
    requires
        i < APP_COUNT,
    ensures
        res@ == app_label_of(i as int),
{
    let (icon, name, _) = launcher_app(i);
    let mut s = concat2(icon, "\n");
    s.append(name);
    s
}

/// A button is shown for search text `query` when its lowercased label or
/// tooltip contains the lowercased query.
pub open spec fn search_hit(label: Seq<char>, tooltip: Seq<char>, query: Seq<char>) -> bool {
    seq_contains(unicode_lowercase(label), unicode_lowercase(query)) || seq_contains(
        unicode_lowercase(tooltip),
        unicode_lowercase(query),
    )
}

/// Whether a button with `label` and `tooltip` stays visible for the
/// search text `query`.
pub fn matches_search(label: &str, tooltip: &str, query: &str) -> (res: bool)
    ensures
        res == search_hit(label@, tooltip@, query@),
{
    let q = to_lowercase(query);
    let l = to_lowercase(label);
    if str_contains(l.as_str(), q.as_str()) {
        return true;
    }
    let t = to_lowercase(tooltip);
    str_contains(t.as_str(), q.as_str())
}

/// Which launcher buttons stay visible for search text `query`, in grid
/// order (the tooltip of each button is the app's name).
pub fn visible_apps(query: &str) -> (res: Vec<bool>)
    ensures
        res@.len() == APP_COUNT,
        forall|i: int| 0 <= i < APP_COUNT ==> #[trigger] res@[i] == search_hit(app_label_of(i), app_of(i).1, query@),
{
    let mut out: Vec<bool> = Vec::new();
    let mut i: usize = 0;
    while i < APP_COUNT
        invariant
            i <= APP_COUNT,
            out@.len() == i,
            forall|j: int| 0 <= j < i ==> #[trigger] out@[j] == search_hit(app_label_of(j), app_of(j).1, query@),
        decreases APP_COUNT - i,
    {
        let label = app_label(i);
        let (_, name, _) = launcher_app(i);
        out.push(matches_search(label.as_str(), name, query));
        i = i + 1;
    }
    out
}

// ---------------------------------------------------------------------
// Launcher window
// ---------------------------------------------------------------------

/// The launcher window: hidden until toggled.
pub struct Launcher {
    visible: bool,
}

impl Launcher {
    /// Whether the window shows.
    pub closed spec fn shows(&self) -> bool {
        self.visible
    }

    /// A hidden launcher.
    pub fn new() -> (res: Launcher)
        ensures
            !res.shows(),
    {
        Launcher { visible: false }
    }

    /// Shows the window if hidden, hides it if shown. True when it was
    /// just shown, in which case the search entry takes the focus.
    pub fn toggle(&mut self) -> (res: bool)
        ensures
            final(self).shows() == !old(self).shows(),
            res == final(self).shows(),
    {
        self.visible = !self.visible;
        self.visible
    }

    /// Shows the window.
    pub fn present(&mut self)
        ensures
            final(self).shows(),
    {
        self.visible = true;
    }

    /// Whether the window shows.
    pub fn is_visible(&self) -> (res: bool)
        ensures
            res == self.shows(),
    {
        self.visible
    }
}

} // verus!
