use astraos::desktop_config::SettingsConfig;
use astraos::settings_ui::{accent_cell, accent_color, page_name, wallpaper, Content, Sidebar};

#[test]
fn pages_follow_sidebar_order() {
    assert_eq!(page_name(0), "account");
    assert_eq!(page_name(1), "personalization");
    assert_eq!(page_name(2), "system");
    assert_eq!(page_name(3), "about");
    assert_eq!(page_name(7), "account");
}

#[test]
fn sidebar_highlights_one_entry() {
    let mut s = Sidebar::new();
    assert!(!s.is_active(0));
    assert_eq!(s.set_active(2), None);
    s.connect_page_changed();
    assert_eq!(s.set_active(1), Some(1));
    assert_eq!(s.set_active(7), Some(7));
    assert!(!s.is_active(1));
    s.set_active(2);
    assert!(s.is_active(2));
    assert!(!s.is_active(0));
}

#[test]
fn content_switches_pages_and_keeps_settings() {
    let mut c = Content::new(SettingsConfig::default());
    assert_eq!(c.visible_page(), "account");
    c.switch_to(1);
    assert_eq!(c.visible_page(), "personalization");
    c.switch_to(42);
    assert_eq!(c.visible_page(), "account");
    c.config_mut().pick_accent(5);
    assert_eq!(c.config().accent_color, "#5856D6");
}

#[test]
fn theme_switch_round_trip() {
    let mut cfg = SettingsConfig::default();
    assert!(!cfg.theme_switch_on());
    cfg.set_theme_switch(true);
    assert_eq!(cfg.theme, "light");
    assert!(cfg.theme_switch_on());
    cfg.set_theme_switch(false);
    assert_eq!(cfg.theme, "dark");
    assert!(!cfg.theme_switch_on());
}

#[test]
fn accent_and_wallpaper_picks() {
    assert_eq!(accent_color(0), ("#0078d7", "0078d7", "Azure"));
    assert_eq!(accent_color(7), ("#FFB900", "FFB900", "Gold"));
    assert_eq!(accent_cell(5), (1, 1));
    assert_eq!(wallpaper(1), ("default-bleu", "Default Blue"));
    let mut cfg = SettingsConfig::default();
    cfg.pick_wallpaper(2);
    assert_eq!(cfg.wallpaper, "classic.png");
    cfg.pick_accent(2);
    assert_eq!(cfg.accent_color, "#D83B01");
    assert_eq!(cfg.theme, "dark");
}
