use astraos::desktop_config::SettingsConfig;
use astraos::lock::{password_hash, LockScreen, LockStep};
use astraos::onboarding::OnboardingState;
use astraos::strength::SetupScreen;
use astraos::vm_config::{NewVmModal, VmConfig};
use astraos::vm_ui::{ActionButton, MainArea};

#[test]
fn onboarding_finish_fires_once() {
    let mut s = OnboardingState::new();
    for _ in 0..5 {
        s.next();
    }
    assert_eq!(s.current_step, 6);
    assert!(s.finish());
    assert!(!s.finish());
    assert!(s.completed);
    s.back();
    assert!(s.completed);
}

#[test]
fn new_vm_modal_uses_callback_once() {
    let mut m = NewVmModal::new();
    m.set_on_create();
    m.show();
    assert!(m.create("", "a.iso", "x86_64", 1024, 1, 8, 5).is_none());
    let vm: VmConfig = m.create("Test", "a.iso", "aarch64 (ARM)", 1024, 2, 8, 5).unwrap();
    assert_eq!(vm.id, "vm-5");
    assert_eq!(vm.architecture, "aarch64");
    assert!(m.create("Again", "a.iso", "x86_64", 1024, 2, 8, 6).is_none());
    m.set_on_create();
    assert!(m.create("Third", "a.iso", "x86_64", 1024, 2, 8, 7).is_some());
}

#[test]
fn lock_screen_hands_over_once() {
    let stored = password_hash("pw");
    let mut l = LockScreen::new();
    l.present();
    assert_eq!(l.submit("nope", Some(&stored)), LockStep::Shake(500));
    assert_eq!(l.submit("pw", Some(&stored)), LockStep::Unlock { hand_over: true });
    assert_eq!(l.submit("pw", Some(&stored)), LockStep::Unlock { hand_over: false });
}

#[test]
fn setup_screen_errors_and_creates() {
    let mut s = SetupScreen::new();
    s.set_on_create();
    assert!(s.create_clicked("short", "short").is_none());
    assert_eq!(s.error().map(|e| e.as_str()), Some("Master password must be at least 8 characters"));
    assert!(s.create_clicked("longenough", "different").is_none());
    assert_eq!(s.error().map(|e| e.as_str()), Some("Passwords do not match"));
    assert_eq!(s.create_clicked("longenough", "longenough").as_deref(), Some("longenough"));
    assert!(s.error().is_none());
    let mut bare = SetupScreen::new();
    assert!(bare.create_clicked("longenough", "longenough").is_none());
}

#[test]
fn settings_setters_change_one_field() {
    let mut c = SettingsConfig::default();
    c.set_taskbar_mode("mac");
    assert_eq!(c.taskbar_mode, "mac");
    c.set_glassmorphism(false);
    assert!(!c.glassmorphism);
    c.set_performance_mode("eco");
    assert_eq!(c.performance_mode, "eco");
    assert_eq!(c.theme, "dark");
}

#[test]
fn action_buttons_dispatch_shown_vm() {
    let mut m = MainArea::new();
    assert!(m.press(ActionButton::Start).is_none());
    m.set_running(true);
    assert!(m.press(ActionButton::Capture).is_none());
    m.show_vm(&astraos::vm_config::vm_from_form("A", "", "x86_64", 512, 1, 1, 3).unwrap());
    assert_eq!(m.press(ActionButton::Delete).as_deref(), Some("vm-3"));
    assert_eq!(m.press(ActionButton::Capture).as_deref(), Some("vm-3"));
    m.set_running(false);
    assert!(m.press(ActionButton::Capture).is_none());
    assert_eq!(m.press(ActionButton::Settings).as_deref(), Some("vm-3"));
}
