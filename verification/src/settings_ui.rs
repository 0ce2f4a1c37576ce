//! The Astra Settings window as state: the navigation sidebar, the page
//! shown, and what the personalization controls write into the desktop
//! settings. Widgets render this state; the caller saves the settings
//! after each change.

use vstd::prelude::*;
use crate::desktop_config::SettingsConfig;
use crate::text::{concat2, to_owned_string};

verus! {

// ---------------------------------------------------------------------
// Navigation
// ---------------------------------------------------------------------

/// The page names of the content stack, in sidebar order; an index past
/// the end falls back to the account page.
pub open spec fn page_name_of(idx: int) -> Seq<char> {
    if idx == 1 {
        "personalization"@
    } else if idx == 2 {
        "system"@
    } else if idx == 3 {
        "about"@
    } else {
        "account"@
    }
}

/// The stack page for sidebar entry `idx`.
pub fn page_name(idx: usize) -> (res: &'static str)
    ensures
        res@ == page_name_of(idx as int),
{
    if idx == 1 {
        "personalization"
    } else if idx == 2 {
        "system"
    } else if idx == 3 {
        "about"
    } else {
        "account"
    }
}

/// The navigation sidebar: which entry is highlighted, and whether a
/// page-changed listener is registered.
pub struct Sidebar {
    active: Option<usize>,
    listening: bool,
}

impl Sidebar {
    /// The highlighted entry.
    pub closed spec fn active_spec(&self) -> Option<usize> {
        self.active
    }

    /// Whether a page-changed listener is registered.
    pub closed spec fn listening(&self) -> bool {
        self.listening
    }

    /// A sidebar with no entry highlighted and no listener.
    pub fn new() -> (res: Sidebar)
        ensures
            res.active_spec() is None,
            !res.listening(),
    {
        Sidebar { active: None, listening: false }
    }

    /// Registers the page-changed listener (replacing any earlier one).
    pub fn connect_page_changed(&mut self)
        ensures
            final(self).listening(),
            final(self).active_spec() == old(self).active_spec(),
    {
        self.listening = true;
    }

    /// Highlights entry `idx` (a click on it, or the initial selection; no
    /// entry is highlighted when `idx` is past the last). The result is the
    /// index the page-changed listener is called with, once, when one is
    /// registered; the content area then shows page `idx`.
    pub fn set_active(&mut self, idx: usize) -> (notify: Option<usize>)
        ensures
            final(self).active_spec() == Some(idx),
            final(self).listening() == old(self).listening(),
            notify == (if old(self).listening() {
                Some(idx)
            } else {
                None::<usize>
            }),
    {
        self.active = Some(idx);
        if self.listening {
            Some(idx)
        } else {
            None
        }
    }

    /// Whether entry `i` is highlighted.
    pub fn is_active(&self, i: usize) -> (res: bool)
        ensures
            res == (self.active_spec() == Some(i)),
    {
        match self.active {
            Some(a) => a == i,
            None => false,
        }
    }
}

/// The content area: the page shown and the settings the pages edit.
pub struct Content {
    visible: &'static str,
    cfg: SettingsConfig,
}

impl Content {
    /// The name of the page shown.
    pub closed spec fn visible_spec(&self) -> Seq<char> {
        self.visible@
    }

    /// The settings being edited.
    pub closed spec fn config_spec(&self) -> SettingsConfig {
        self.cfg
    }

    /// The content area editing `cfg`, showing the account page.
    pub fn new(cfg: SettingsConfig) -> (res: Content)
        ensures
            res.visible_spec() == page_name_of(0),
            res.config_spec() == cfg,
    {
        Content { visible: page_name(0), cfg }
    }

    /// Shows the page of sidebar entry `idx` (the account page when `idx`
    /// is past the end).
    pub fn switch_to(&mut self, idx: usize)
        ensures
            final(self).visible_spec() == page_name_of(idx as int),
            final(self).config_spec() == old(self).config_spec(),
    {
        self.visible = page_name(idx);
    }

    /// The name of the page shown.
    pub fn visible_page(&self) -> (res: &'static str)
        ensures
            res@ == self.visible_spec(),
    {
        self.visible
    }

    /// The settings being edited.
    pub fn config(&self) -> (res: &SettingsConfig)
        ensures
            *res == self.config_spec(),
    {
        &self.cfg
    }

    /// The settings, for the pages' controls to edit.
    pub fn config_mut(&mut self) -> (res: &mut SettingsConfig)
        ensures
            *res == old(self).config_spec(),
            final(self).config_spec() == *final(res),
            final(self).visible_spec() == old(self).visible_spec(),
    {
        &mut self.cfg
    }
}

// ---------------------------------------------------------------------
// Personalization
// ---------------------------------------------------------------------

/// The number of accent colours offered.
pub const ACCENT_COUNT: usize = 8;

/// The number of wallpapers offered.
pub const WALLPAPER_COUNT: usize = 3;

/// The accent colours offered, in picker order: hex code, CSS class
/// suffix and display name.
pub open spec fn accent_of(i: int) -> (Seq<char>, Seq<char>, Seq<char>) {
    if i == 0 {
        ("#0078d7"@, "0078d7"@, "Azure"@)
    } else if i == 1 {
        ("#107C10"@, "107C10"@, "Verdure"@)
    } else if i == 2 {
        ("#D83B01"@, "D83B01"@, "Sunset"@)
    } else if i == 3 {
        ("#8E8E93"@, "8E8E93"@, "Slate"@)
    } else if i == 4 {
        ("#FF2D55"@, "FF2D55"@, "Magenta"@)
    } else if i == 5 {
        ("#5856D6"@, "5856D6"@, "Violet"@)
    } else if i == 6 {
        ("#00B7C3"@, "00B7C3"@, "Teal"@)
    } else {
        ("#FFB900"@, "FFB900"@, "Gold"@)
    }
}

/// The wallpapers offered, in gallery order: id and display name.
pub open spec fn wallpaper_of(i: int) -> (Seq<char>, Seq<char>) {
    if i == 0 {
        ("default-violet"@, "Default Violet"@)
    } else if i == 1 {
        ("default-bleu"@, "Default Blue"@)
    } else {
        ("classic"@, "Classic"@)
    }
}

/// Accent colour `i` of the picker: (hex, CSS class suffix, name).
pub fn accent_color(i: usize) -> (res: (&'static str, &'static str, &'static str))
    requires
        i < ACCENT_COUNT,
    ensures
        (res.0@, res.1@, res.2@) == accent_of(i as int),
{
    if i == 0 {
        ("#0078d7", "0078d7", "Azure")
    } else if i == 1 {
        ("#107C10", "107C10", "Verdure")
    } else if i == 2 {
        ("#D83B01", "D83B01", "Sunset")
    } else if i == 3 {
        ("#8E8E93", "8E8E93", "Slate")
    } else if i == 4 {
        ("#FF2D55", "FF2D55", "Magenta")
    } else if i == 5 {
        ("#5856D6", "5856D6", "Violet")
    } else if i == 6 {
        ("#00B7C3", "00B7C3", "Teal")
    } else {
        ("#FFB900", "FFB900", "Gold")
    }
}

/// The (row, column) of accent colour `i` in the four-column picker grid.
pub fn accent_cell(i: usize) -> (res: (usize, usize))
    requires
        i < ACCENT_COUNT,
    ensures
        res.0 == i / 4,
        res.1 == i % 4,
{
    (i / 4, i % 4)
}

/// Wallpaper `i` of the gallery: (id, display name).
pub fn wallpaper(i: usize) -> (res: (&'static str, &'static str))
    requires
        i < WALLPAPER_COUNT,
    ensures
        (res.0@, res.1@) == wallpaper_of(i as int),
{
    if i == 0 {
        ("default-violet", "Default Violet")
    } else if i == 1 {
        ("default-bleu", "Default Blue")
    } else {
        ("classic", "Classic")
    }
}

impl SettingsConfig {
    /// Whether the theme switch is on: the theme is `"light"`.
    pub fn theme_switch_on(&self) -> (res: bool)
        ensures
            res == (self.theme@ == "light"@),
    {
        crate::text::str_eq(self.theme.as_str(), "light")
    }

    /// The theme switch flipped to `on`: `"light"` when on, `"dark"` when
    /// off; nothing else changes.
    pub fn set_theme_switch(&mut self, on: bool)
        ensures
            final(self).theme@ == if on {
                "light"@
            } else {
                "dark"@
            },
            *final(self) == (SettingsConfig { theme: final(self).theme, ..*old(self) }),
    {
        self.theme = if on {
            to_owned_string("light")
        } else {
            to_owned_string("dark")
        };
    }

    /// The taskbar-mode combo set to entry id `id` (`"win"` or `"mac"`):
    /// it becomes the taskbar mode; nothing else changes.
    pub fn set_taskbar_mode(&mut self, id: &str)
        ensures
            final(self).taskbar_mode@ == id@,
            *final(self) == (SettingsConfig { taskbar_mode: final(self).taskbar_mode, ..*old(self) }),
    {
        self.taskbar_mode = to_owned_string(id);
    }

    /// The glassmorphism switch flipped to `on`; nothing else changes.
    pub fn set_glassmorphism(&mut self, on: bool)
        ensures
            *final(self) == (SettingsConfig { glassmorphism: on, ..*old(self) }),
    {
        self.glassmorphism = on;
    }

    /// The performance-mode combo (System page) set to entry id `id`
    /// (`"eco"`, `"balanced"` or `"performance"`); nothing else changes.
    pub fn set_performance_mode(&mut self, id: &str)
        ensures
            final(self).performance_mode@ == id@,
            *final(self) == (SettingsConfig { performance_mode: final(self).performance_mode, ..*old(self) }),
    {
        self.performance_mode = to_owned_string(id);
    }

    /// Accent colour `i` picked: its hex code becomes the accent colour;
    /// nothing else changes.
    pub fn pick_accent(&mut self, i: usize)
        requires
            i < ACCENT_COUNT,
        ensures
            final(self).accent_color@ == accent_of(i as int).0,
            *final(self) == (SettingsConfig { accent_color: final(self).accent_color, ..*old(self) }),
    {
        let (hex, _, _) = accent_color(i);
        self.accent_color = to_owned_string(hex);
    }

    /// Wallpaper `i` picked: `{id}.png` becomes the wallpaper; nothing else
    /// changes.
    pub fn pick_wallpaper(&mut self, i: usize)
        requires
            i < WALLPAPER_COUNT,
        ensures
            final(self).wallpaper@ == wallpaper_of(i as int).0 + ".png"@,
            *final(self) == (SettingsConfig { wallpaper: final(self).wallpaper, ..*old(self) }),
    {
        let (id, _) = wallpaper(i);
        self.wallpaper = concat2(id, ".png");
    }
}

/// Flipping the theme switch to `on` and reading the switch back gives
/// `on`.
pub proof fn lemma_theme_switch_roundtrip(on: bool)
    ensures
        ((if on {
            "light"@
        } else {
            "dark"@
        }) == "light"@) == on,
{
    reveal_strlit("light");
    reveal_strlit("dark");
    assert("dark"@[0] != "light"@[0]);
}

} // verus!
