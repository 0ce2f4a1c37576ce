use astraos::desktop_config::ShellConfig;
use astraos::shell_ui::{app_label, launcher_app, matches_search, pinned_app, visible_apps, workspace_button, Launcher, Taskbar};

#[test]
fn taskbar_follows_mode() {
    let mut c = ShellConfig::default();
    assert_eq!(c.taskbar(), Taskbar::Bar);
    c.taskbar_mode = "mac".to_string();
    assert_eq!(c.taskbar(), Taskbar::Dock);
    c.taskbar_mode = "Mac".to_string();
    assert_eq!(c.taskbar(), Taskbar::Bar);
}

#[test]
fn workspace_buttons() {
    assert_eq!(workspace_button(1), ("1".to_string(), "Switch to workspace 1".to_string()));
    assert_eq!(workspace_button(9), ("9".to_string(), "Switch to workspace 9".to_string()));
}

#[test]
fn apps_and_labels() {
    assert_eq!(launcher_app(0), ("\u{1F310}", "Firefox", "firefox"));
    assert_eq!(launcher_app(7), ("\u{1F3A8}", "Display Settings", "wdisplays"));
    assert_eq!(pinned_app(3), ("\u{2699}\u{FE0F}", "Settings", "astra-settings"));
    assert_eq!(app_label(2), "\u{1F4BB}\nTerminal");
}

#[test]
fn search_is_case_insensitive_on_label_or_tooltip() {
    assert!(matches_search("\u{1F4BB}\nTerminal", "Terminal", "TERM"));
    assert!(matches_search("x", "Files", "fil"));
    assert!(!matches_search("\u{1F4BB}\nTerminal", "Terminal", "vim"));
    assert!(matches_search("anything", "else", ""));
}

#[test]
fn search_filters_the_grid() {
    let v = visible_apps("settings");
    assert_eq!(v, vec![false, false, false, true, false, false, false, true]);
    assert_eq!(visible_apps(""), vec![true; 8]);
    let t = visible_apps("t");
    assert_eq!(t, vec![false, false, true, true, true, false, true, true]);
}

#[test]
fn launcher_toggles() {
    let mut l = Launcher::new();
    assert!(!l.is_visible());
    assert!(l.toggle());
    assert!(l.is_visible());
    assert!(!l.toggle());
    assert!(!l.is_visible());
    l.present();
    assert!(l.is_visible());
}
