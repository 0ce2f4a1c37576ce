use astraos::vm_config::{
    architecture_for_label, config_dir, config_path, data_dir, default_cpu, default_disk,
    default_iso_dir, default_ram, vm_disk_path, vm_from_form, vm_id_from_seed, AppConfig,
    OsFamily, VmConfig,
};

#[test]
fn vm_config_defaults() {
    let vm = VmConfig::new("test", "/iso/x.iso", "x86_64");
    assert_eq!(vm.ram_mb, 4096);
    assert_eq!(vm.cpu_cores, 2);
    assert_eq!(vm.disk_gb, 20);
    assert_eq!(vm.architecture, "x86_64");
    assert!(vm.last_used.is_none());
    assert_eq!(vm.id.len(), 36);
    assert!(vm.id.chars().filter(|c| *c == '-').count() == 4);
}

#[test]
fn os_family_detection_astra() {
    let vm = VmConfig::new("AstraOS Dev", "/iso/astra.iso", "x86_64");
    assert_eq!(vm.os_family(), OsFamily::AstraOS);
}

#[test]
fn os_family_detection_windows() {
    let vm = VmConfig::new("Win11", "/iso/windows11.iso", "x86_64");
    assert_eq!(vm.os_family(), OsFamily::Windows);
}

#[test]
fn os_family_detection_linux() {
    let vm = VmConfig::new("Ubuntu", "/iso/ubuntu.iso", "x86_64");
    assert_eq!(vm.os_family(), OsFamily::Linux);
}

#[test]
fn os_family_detection_arm_overrides_name() {
    let vm = VmConfig::new("Ubuntu ARM", "/iso/ubuntu.iso", "aarch64");
    assert_eq!(vm.os_family(), OsFamily::Arm);
}

#[test]
fn os_family_detection_unknown() {
    let vm = VmConfig::new("Mystery", "/iso/x.iso", "x86_64");
    assert_eq!(vm.os_family(), OsFamily::Unknown);
}

#[test]
fn os_family_ignores_case() {
    let vm = VmConfig::new("WINDOWS Server", "/x.iso", "x86_64");
    assert_eq!(vm.os_family(), OsFamily::Windows);
    let vm = VmConfig::new("Fedora", "/x.iso", "AArch64");
    assert_eq!(vm.os_family(), OsFamily::Arm);
    let vm = VmConfig::new("Work", "/isos/FEDORA-39.iso", "x86_64");
    assert_eq!(vm.os_family(), OsFamily::Linux);
}

#[test]
fn os_family_from_lowered_text() {
    assert_eq!(OsFamily::from_lowered("x86_64", "my archlinux"), OsFamily::Linux);
    assert_eq!(OsFamily::from_lowered("x86_64", "ASTRA"), OsFamily::Unknown);
    assert_eq!(OsFamily::from_lowered("arm64", "astra"), OsFamily::AstraOS);
}

#[test]
fn os_family_icons() {
    assert_eq!(OsFamily::Windows.css_class(), "os-windows");
    assert_eq!(OsFamily::Unknown.css_class(), "os-unknown");
    assert_eq!(OsFamily::AstraOS.emoji(), "\u{1F427}");
    assert_eq!(OsFamily::Arm.emoji(), "\u{1F4F1}");
}

#[test]
fn app_config_add_remove_get() {
    let mut cfg = AppConfig::default();
    let vm = VmConfig::new("A", "/a.iso", "x86_64");
    let id = vm.id.clone();
    cfg.add_vm(vm);
    assert_eq!(cfg.vms.len(), 1);
    assert!(cfg.get_vm(&id).is_some());
    assert!(cfg.get_vm_mut(&id).is_some());
    assert!(cfg.remove_vm(&id));
    assert!(!cfg.remove_vm(&id));
    assert!(cfg.get_vm(&id).is_none());
}

#[test]
fn get_vm_mut_updates_last_used() {
    let mut cfg = AppConfig::default();
    cfg.add_vm(vm_from_form("A", "/a.iso", "x86_64", 1024, 1, 10, 5).unwrap());
    if let Some(vm) = cfg.get_vm_mut("vm-5") {
        vm.last_used = Some(42);
    }
    assert_eq!(cfg.get_vm("vm-5").unwrap().last_used, Some(42));
}

#[test]
fn default_sizes() {
    assert_eq!((default_ram(), default_cpu(), default_disk()), (4096, 2, 20));
    let cfg = AppConfig::default();
    assert!(cfg.vms.is_empty() && cfg.qemu_path.is_none() && cfg.default_iso_dir.is_empty());
}

#[test]
fn paths_under_home() {
    assert_eq!(config_dir("/home/u"), "/home/u/.config");
    assert_eq!(data_dir("/home/u"), "/home/u/.local/share");
    assert_eq!(config_path("/home/u"), "/home/u/.config/astra-vm/config.toml");
    assert_eq!(default_iso_dir("/home/u/"), "/home/u/.local/share/astra-vm/isos");
    assert_eq!(vm_disk_path("/home/u", "abc"), "/home/u/.local/share/astra-vm/vms/abc.qcow2");
}

#[test]
fn vm_id_format() {
    let id = vm_id_from_seed(12345);
    assert_eq!(id.len(), 36);
    for (p, c) in id.chars().enumerate() {
        if p == 8 || p == 13 || p == 18 || p == 23 {
            assert_eq!(c, '-');
        } else {
            assert!(matches!(c, '0'..='9' | 'a'..='f'));
        }
    }
    assert_eq!(vm_id_from_seed(12345), id);
    assert_ne!(vm_id_from_seed(12346), id);
}

#[test]
fn form_builds_vm() {
    assert!(vm_from_form("", "/a.iso", "x86_64", 1, 1, 1, 0).is_none());
    let vm = vm_from_form("Box", "/a.iso", "aarch64 (ARM)", 2048, 4, 30, 1_700_000_000).unwrap();
    assert_eq!(vm.id, "vm-1700000000");
    assert_eq!(vm.architecture, "aarch64");
    assert_eq!((vm.ram_mb, vm.cpu_cores, vm.disk_gb), (2048, 4, 30));
    assert_eq!(vm.created_at, 1_700_000_000);
    let vm = vm_from_form("Old", "", "x86_64 (Intel/AMD)", 1, 1, 1, -7).unwrap();
    assert_eq!(vm.id, "vm--7");
    assert_eq!(architecture_for_label("arm"), "x86_64");
}

#[test]
fn os_family_only_documented_linux_keywords() {
    let vm = VmConfig::new("Debian", "/iso/debian-12.iso", "x86_64");
    assert_eq!(vm.os_family(), OsFamily::Unknown);
    let vm = VmConfig::new("Fedora", "/iso/f.iso", "x86_64");
    assert_eq!(vm.os_family(), OsFamily::Linux);
}
