//! The desktop settings file `~/.config/astra/desktop.toml`: the shell's
//! view of it (four fields) and the settings app's view (eight fields),
//! with their AstraOS defaults.

use vstd::prelude::*;
use crate::paths::{join, path_join};
use crate::text::to_owned_string;

verus! {

/// The home directory to use: `$HOME`, or `/home/astra` when unset.
pub open spec fn home_or_default(home: Option<Seq<char>>) -> Seq<char> {
    match home {
        Some(h) => h,
        None => "/home/astra"@,
    }
}

/// `~/.config/astra/desktop.toml` for the given `$HOME` value.
pub open spec fn desktop_config_path_of(home: Option<Seq<char>>) -> Seq<char> {
    join(home_or_default(home), ".config/astra/desktop.toml"@)
}

/// The desktop settings file for the given `$HOME` value (`None` when
/// unset).
pub fn desktop_config_path(home: Option<&str>) -> (res: String)
    ensures
        res@ == desktop_config_path_of(match home { Some(h) => Some(h@), None => None }),
{
    match home {
        Some(h) => path_join(h, ".config/astra/desktop.toml"),
        None => path_join("/home/astra", ".config/astra/desktop.toml"),
    }
}

/// Shell runtime configuration: drives the bar, dock and launcher.
#[derive(Debug, Clone)]
pub struct ShellConfig {
    /// `"win"` (Windows-style taskbar) or `"mac"` (floating dock).
    pub taskbar_mode: String,
    /// Hex accent colour (e.g. `"#818cf8"`).
    pub accent_color: String,
    /// When true, panels render translucent and blurred.
    pub glassmorphism: bool,
    /// Absolute path to the active wallpaper.
    pub wallpaper: String,
}

impl Default for ShellConfig {
    /// Windows-style taskbar, violet accent, glass on, violet wallpaper.
    fn default() -> (res: Self)
        ensures
            res.taskbar_mode@ == "win"@,
            res.accent_color@ == "#818cf8"@,
            res.glassmorphism,
            res.wallpaper@ == "/usr/share/backgrounds/astraos/default-violet.png"@,
    {
        ShellConfig {
            taskbar_mode: to_owned_string("win"),
            accent_color: to_owned_string("#818cf8"),
            glassmorphism: true,
            wallpaper: to_owned_string("/usr/share/backgrounds/astraos/default-violet.png"),
        }
    }
}

impl ShellConfig {
    /// `~/.config/astra/desktop.toml` for the given `$HOME` value.
    pub fn config_path(home: Option<&str>) -> (res: String)
        ensures
            res@ == desktop_config_path_of(match home { Some(h) => Some(h@), None => None }),
    {
        desktop_config_path(home)
    }
}

/// Settings app configuration: every page reads and writes it.
#[derive(Debug, Clone)]
pub struct SettingsConfig {
    /// `"dark"` or `"light"`.
    pub theme: String,
    /// Hex accent colour.
    pub accent_color: String,
    /// Wallpaper basename.
    pub wallpaper: String,
    /// `"win"` or `"mac"`.
    pub taskbar_mode: String,
    /// When true, panels render translucent and blurred.
    pub glassmorphism: bool,
    /// ISO 639-1 language code.
    pub language: String,
    /// When true, the screen locks after the idle timeout.
    pub auto_lock: bool,
    /// `"eco"`, `"balanced"` or `"performance"`.
    pub performance_mode: String,
}

impl SettingsConfig {
    /// Default theme: dark.
    pub fn default_theme() -> (res: String)
        ensures
            res@ == "dark"@,
    {
        to_owned_string("dark")
    }

    /// Default glassmorphism: on.
    pub fn default_glass() -> (res: bool)
        ensures
            res,
    {
        true
    }

    /// Default language: French.
    pub fn default_language() -> (res: String)
        ensures
            res@ == "fr"@,
    {
        to_owned_string("fr")
    }

    /// Default auto-lock: on.
    pub fn default_auto_lock() -> (res: bool)
        ensures
            res,
    {
        true
    }

    /// Default performance mode: balanced.
    pub fn default_performance_mode() -> (res: String)
        ensures
            res@ == "balanced"@,
    {
        to_owned_string("balanced")
    }

    /// `~/.config/astra/desktop.toml` for the given `$HOME` value.
    pub fn config_path(home: Option<&str>) -> (res: String)
        ensures
            res@ == desktop_config_path_of(match home { Some(h) => Some(h@), None => None }),
    {
        desktop_config_path(home)
    }
}

impl Default for SettingsConfig {
    /// Dark theme, violet accent and wallpaper, Windows-style taskbar, glass
    /// on, French, auto-lock on, balanced performance.
    fn default() -> (res: Self)
        ensures
            res.theme@ == "dark"@,
            res.accent_color@ == "#818cf8"@,
            res.wallpaper@ == "default-violet.png"@,
            res.taskbar_mode@ == "win"@,
            res.glassmorphism,
            res.language@ == "fr"@,
            res.auto_lock,
            res.performance_mode@ == "balanced"@,
    {
        SettingsConfig {
            theme: Self::default_theme(),
            accent_color: to_owned_string("#818cf8"),
            wallpaper: to_owned_string("default-violet.png"),
            taskbar_mode: to_owned_string("win"),
            glassmorphism: Self::default_glass(),
            language: Self::default_language(),
            auto_lock: Self::default_auto_lock(),
            performance_mode: Self::default_performance_mode(),
        }
    }
}

} // verus!
