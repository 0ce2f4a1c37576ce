use astraos::desktop_config::{desktop_config_path, SettingsConfig, ShellConfig};
use astraos::hyprland::{parse_event, HyprlandClient, HyprlandEvent};

#[test]
fn config_defaults_are_win_mode_violet() {
    let d = ShellConfig::default();
    assert_eq!(d.taskbar_mode, "win");
    assert_eq!(d.accent_color, "#818cf8");
    assert!(d.glassmorphism);
    assert!(d.wallpaper.ends_with("default-violet.png"));
}

#[test]
fn defaults_match_spec() {
    let d = SettingsConfig::default();
    assert_eq!(d.theme, "dark");
    assert_eq!(d.accent_color, "#818cf8");
    assert_eq!(d.wallpaper, "default-violet.png");
    assert_eq!(d.taskbar_mode, "win");
    assert!(d.glassmorphism);
    assert_eq!(d.language, "fr");
    assert!(d.auto_lock);
    assert_eq!(d.performance_mode, "balanced");
}

#[test]
fn desktop_config_location() {
    assert_eq!(desktop_config_path(Some("/home/x")), "/home/x/.config/astra/desktop.toml");
    assert_eq!(desktop_config_path(None), "/home/astra/.config/astra/desktop.toml");
    assert_eq!(ShellConfig::config_path(Some("/root")), "/root/.config/astra/desktop.toml");
    assert_eq!(SettingsConfig::config_path(None), "/home/astra/.config/astra/desktop.toml");
}

#[test]
fn parse_workspace_change() {
    assert_eq!(
        parse_event("workspace>>3\n"),
        Some(HyprlandEvent::WorkspaceChanged(3))
    );
}

#[test]
fn parse_activewindow() {
    let ev = parse_event("activewindow>>kitty,astra@host: ~").unwrap();
    match ev {
        HyprlandEvent::ActiveWindowChanged(s) => {
            assert_eq!(s, "kitty,astra@host: ~");
        }
        _ => panic!("wrong variant"),
    }
}

#[test]
fn parse_openwindow() {
    let ev = parse_event("openwindow>>0x1234,2,Firefox,firefox").unwrap();
    match ev {
        HyprlandEvent::WindowOpened(s) => {
            assert_eq!(s, "firefox,Firefox");
        }
        _ => panic!("wrong variant"),
    }
}

#[test]
fn parse_closewindow() {
    let ev = parse_event("closewindow>>0xdeadbeef\n").unwrap();
    match ev {
        HyprlandEvent::WindowClosed(s) => {
            assert_eq!(s, "0xdeadbeef");
        }
        _ => panic!("wrong variant"),
    }
}

#[test]
fn parse_unknown_event_returns_none() {
    assert!(parse_event("screencast>>1,1").is_none());
    assert!(parse_event("garbage").is_none());
    assert!(parse_event("").is_none());
}

#[test]
fn parse_edge_cases() {
    assert_eq!(parse_event("  workspace>>+12 \t"), Some(HyprlandEvent::WorkspaceChanged(12)));
    assert_eq!(parse_event("workspace>>name"), None);
    assert_eq!(parse_event("workspace>>4294967296"), None);
    assert_eq!(parse_event("workspace>>4294967295"), Some(HyprlandEvent::WorkspaceChanged(4294967295)));
    assert_eq!(parse_event("openwindow>>0x1,2,kitty"), None);
    assert_eq!(
        parse_event("openwindow>>0x1,2,kitty,a, b, c"),
        Some(HyprlandEvent::WindowOpened("a, b, c,kitty".to_string()))
    );
    assert_eq!(parse_event("activewindow>>"), Some(HyprlandEvent::ActiveWindowChanged(String::new())));
}

#[test]
fn event_socket_location() {
    let c = HyprlandClient::new(Some("abc"), Some("/run/user/1000"));
    assert_eq!(c.socket_path(), Some("/run/user/1000/hypr/abc/.socket2.sock".to_string()));
    assert_eq!(HyprlandClient::new(None, Some("/run")).socket_path(), None);
    assert_eq!(HyprlandClient::find_event_socket(Some("s"), None), None);
}
