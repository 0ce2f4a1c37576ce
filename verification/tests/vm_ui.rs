use astraos::vm_config::{vm_from_form, AppConfig, VmConfig};
use astraos::vm_ui::{status_class, status_label, vm_detail, App, Header, MainArea, Sidebar, VmItem};

fn vm(name: &str, iso: &str, arch: &str, n: i64) -> VmConfig {
    vm_from_form(name, iso, arch, 2048, 2, 10, n).unwrap()
}

fn config_with(vms: Vec<VmConfig>) -> AppConfig {
    let mut c = AppConfig::default();
    for v in vms {
        c.add_vm(v);
    }
    c
}

#[test]
fn header_pill_follows_detection() {
    let mut h = Header::new();
    assert_eq!(h.qemu_label(), "\u{26A0} QEMU manquant");
    assert_eq!(h.qemu_class(), "qemu-missing");
    h.set_qemu_detected(true);
    assert_eq!(h.qemu_label(), "\u{1F427} QEMU Portable d\u{E9}tect\u{E9}");
    assert_eq!(h.qemu_class(), "qemu-found");
}

#[test]
fn status_badges() {
    assert_eq!(status_label(true), "\u{25CF} En cours");
    assert_eq!(status_label(false), "\u{25CF} Arr\u{EA}t\u{E9}e");
    assert_eq!(status_class(true), "status-running");
    assert_eq!(status_class(false), "status-stopped");
}

#[test]
fn vm_item_shows_family_and_status() {
    let v = vm("Ubuntu", "/isos/ubuntu.iso", "x86_64", 1);
    let mut it = VmItem::new(&v);
    assert_eq!(it.vm_id(), "vm-1");
    assert_eq!(it.name(), "Ubuntu");
    assert_eq!(it.icon(), "\u{1F4BB}");
    assert_eq!(it.icon_class(), "os-linux");
    assert!(!it.is_running());
    assert!(!it.is_active());
    assert_eq!(it.status_label(), "\u{25CF} Arr\u{EA}t\u{E9}e");
    it.set_running(true);
    assert_eq!(it.status_label(), "\u{25CF} En cours");
    it.set_active(true);
    assert!(it.is_active());
}

#[test]
fn sidebar_selection_marks_one_row() {
    let mut s = Sidebar::new();
    assert!(s.placeholder().is_some());
    s.set_vms(&[vm("A", "", "x86_64", 1), vm("B", "", "x86_64", 2)]);
    assert!(s.placeholder().is_none());
    assert!(s.selected_id().is_none());
    s.select_vm("vm-2");
    assert_eq!(s.selected_id().map(|x| x.as_str()), Some("vm-2"));
    assert!(!s.items()[0].is_active());
    assert!(s.items()[1].is_active());
    s.select_vm("vm-1");
    assert!(s.items()[0].is_active());
    assert!(!s.items()[1].is_active());
}

#[test]
fn sidebar_running_marks_first_row_only() {
    let mut s = Sidebar::new();
    s.set_vms(&[vm("A", "", "x86_64", 1), vm("A again", "", "x86_64", 1), vm("B", "", "x86_64", 2)]);
    s.set_vm_running("vm-1", true);
    assert!(s.items()[0].is_running());
    assert!(!s.items()[1].is_running());
    assert!(!s.items()[2].is_running());
    s.set_vm_running("nope", true);
    assert!(!s.items()[2].is_running());
}

#[test]
fn detail_texts_of_a_vm() {
    let d = vm_detail(&vm("Ubuntu", "/isos/ubuntu.iso", "x86_64", 1));
    assert_eq!(d.icon, "\u{1F4BB}");
    assert_eq!(d.icon_class, "os-linux");
    assert_eq!(d.title, "Ubuntu");
    assert_eq!(d.subtitle, "x86_64 \u{2022} 2 \u{2022} 2048");
    assert_eq!(d.arch, "x86_64");
    assert_eq!(d.cpu, "2 c\u{153}urs");
    assert_eq!(d.ram, "2048 Mo");
    assert_eq!(d.disk, "10 Go");
    assert_eq!(d.iso, "/isos/ubuntu.iso");
    assert_eq!(d.accel_3d, "Activ\u{E9}e");
    let arm = vm_detail(&vm("Pi", "", "aarch64 (ARM)", 2));
    assert_eq!(arm.accel_3d, "D\u{E9}sactiv\u{E9}e");
    assert_eq!(arm.icon_class, "os-arm");
}

#[test]
fn main_area_stats_only_while_running() {
    let mut m = MainArea::new();
    assert_eq!(m.title(), "Aucune VM s\u{E9}lectionn\u{E9}e");
    assert_eq!(m.subtitle(), "S\u{E9}lectionnez une VM dans la liste.");
    assert_eq!(m.icon(), ("\u{1F4E6}", "os-unknown"));
    assert!(!m.actions_enabled());
    assert!(!m.capture_enabled());
    assert_eq!(m.start_label(), "\u{25B6} D\u{E9}marrer");
    m.show_vm(&vm("A", "", "x86_64", 3));
    assert!(m.actions_enabled());
    assert_eq!(m.title(), "A");
    assert_eq!(m.subtitle(), "x86_64 \u{2022} 2 \u{2022} 2048");
    assert_eq!(m.current_id().map(|x| x.as_str()), Some("vm-3"));
    assert!(m.update_stats(10, 20, 0, 65).is_none());
    m.set_running(true);
    assert!(m.capture_enabled());
    assert!(m.stats_visible());
    assert_eq!(m.start_label(), "\u{23F9} Arr\u{EA}ter");
    assert_eq!(m.status_label(), "\u{25CF} En cours");
    let l = m.update_stats(12, 300, 0, 65).unwrap();
    assert_eq!(l.cpu, "12 %");
    assert_eq!(l.ram, "300 Mo");
    assert_eq!(l.disk, "0 Mo/s");
    assert_eq!(l.uptime, "0h 01m 05s");
}

#[test]
fn window_selects_first_vm_on_open() {
    let w = App::new(config_with(vec![vm("A", "", "x86_64", 1), vm("B", "", "x86_64", 2)]), false);
    assert_eq!(w.selected_vm().map(|x| x.as_str()), Some("vm-1"));
    assert!(w.sidebar().items()[0].is_active());
    assert_eq!(w.main_area().detail().unwrap().title, "A");
    let empty = App::new(AppConfig::default(), true);
    assert!(empty.selected_vm().is_none());
    assert!(empty.sidebar().placeholder().is_some());
    assert_eq!(empty.header().qemu_class(), "qemu-found");
}

#[test]
fn deleting_selected_vm_moves_selection() {
    let mut w = App::new(config_with(vec![vm("A", "", "x86_64", 1), vm("B", "", "x86_64", 2)]), false);
    assert!(!w.delete_vm("vm-9"));
    assert!(w.delete_vm("vm-1"));
    assert_eq!(w.config().vms.len(), 1);
    assert_eq!(w.selected_vm().map(|x| x.as_str()), Some("vm-2"));
    assert_eq!(w.main_area().detail().unwrap().title, "B");
    assert!(w.delete_vm("vm-2"));
    assert!(w.selected_vm().is_none());
    assert!(w.sidebar().placeholder().is_some());
}

#[test]
fn deleting_other_vm_keeps_selection() {
    let mut w = App::new(config_with(vec![vm("A", "", "x86_64", 1), vm("B", "", "x86_64", 2)]), false);
    assert!(w.delete_vm("vm-2"));
    assert_eq!(w.selected_vm().map(|x| x.as_str()), Some("vm-1"));
    assert!(w.sidebar().selected_id().is_none());
}

#[test]
fn toggling_start_stamps_and_stop_clears() {
    let mut w = App::new(config_with(vec![vm("A", "", "x86_64", 1)]), true);
    assert!(w.toggle_vm_running("vm-1", false, 1234));
    assert_eq!(w.config().vms[0].last_used, Some(1234));
    assert!(w.main_area().capture_enabled());
    assert!(w.sidebar().items()[0].is_running());
    assert!(!w.toggle_vm_running("vm-1", true, 9999));
    assert_eq!(w.config().vms[0].last_used, Some(1234));
    assert!(!w.sidebar().items()[0].is_running());
    assert_eq!(w.main_area().status_label(), "\u{25CF} Arr\u{EA}t\u{E9}e");
}
