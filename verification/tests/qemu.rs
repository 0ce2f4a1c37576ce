use astraos::disk::{create_disk_args, not_found, qemu_img_binary, qemu_img_choice, DiskError};
use astraos::qemu::{
    arch_binary_name, build_qemu_args, build_qemu_args_with_headless, pick_binary, qemu_arch_binary,
    qemu_args, QemuBinary,
};
use astraos::qemu_downloader::{
    astra_vm_qemu_dir, download_with_progress, extract_zip, qemu_binary_name, resolve_qemu,
    QemuDownloadError,
};
use astraos::vm_config::VmConfig;

fn sample_vm() -> VmConfig {
    VmConfig {
        id: "test-vm".to_string(),
        name: "Test VM".to_string(),
        iso_path: String::new(),
        architecture: "x86_64".to_string(),
        ram_mb: 1024,
        cpu_cores: 1,
        disk_gb: 10,
        created_at: 0,
        last_used: None,
    }
}

#[test]
fn arch_binary_name_mapping() {
    assert_eq!(arch_binary_name("x86_64"), "qemu-system-x86_64");
    assert_eq!(arch_binary_name("amd64"), "qemu-system-x86_64");
    assert_eq!(arch_binary_name("aarch64"), "qemu-system-aarch64");
    assert_eq!(arch_binary_name("arm64"), "qemu-system-aarch64");
    assert_eq!(arch_binary_name("riscv64"), "qemu-system-x86_64");
}

#[test]
fn qemu_arch_binary_returns_bare_path() {
    assert_eq!(qemu_arch_binary("x86_64"), "qemu-system-x86_64");
    assert_eq!(qemu_arch_binary("aarch64"), "qemu-system-aarch64");
}

#[test]
fn build_args_minimal_vm() {
    let vm = sample_vm();
    let args = build_qemu_args(&vm, "/disks/test.qcow2", false);

    assert!(args.contains(&"-m".to_string()));
    assert!(args.contains(&"1024".to_string()));
    assert!(args.contains(&"-smp".to_string()));
    assert!(args.contains(&"1".to_string()));
    assert!(args.contains(&"-boot".to_string()));
    assert!(args.contains(&"d".to_string()));
    assert!(args.contains(&"-display".to_string()));
    assert!(args.contains(&"gtk".to_string()));
    assert!(args.contains(&"-vga".to_string()));
    assert!(args.contains(&"virtio".to_string()));
    assert!(args
        .iter()
        .any(|a| a.starts_with("file=/disks/test.qcow2,format=qcow2,if=virtio")));
}

#[test]
fn build_args_headless_uses_display_none() {
    let vm = sample_vm();
    let args = build_qemu_args_with_headless(&vm, "/d.qcow2", true, false);
    let display_idx = args.iter().position(|a| a == "-display").unwrap();
    assert_eq!(args[display_idx + 1], "none");
}

#[test]
fn build_args_skips_cdrom_when_iso_missing() {
    let mut vm = sample_vm();
    vm.iso_path = "/no/such/iso.iso".to_string();
    let args = build_qemu_args(&vm, "/d.qcow2", false);
    assert!(!args.iter().any(|a| a == "-cdrom"));
}

#[test]
fn for_arch_falls_back_to_bare_name_when_sibling_missing() {
    let qb = QemuBinary {
        path: "qemu-system-x86_64".to_string(),
        version: String::new(),
    };
    assert_eq!(qb.for_arch("aarch64"), "qemu-system-aarch64");
}

#[test]
fn for_arch_looks_next_to_portable_binary() {
    let qb = QemuBinary {
        path: "/no/such/dir/qemu-system-x86_64".to_string(),
        version: String::new(),
    };
    assert_eq!(qb.sibling_path("arm64"), Some("/no/such/dir/qemu-system-aarch64".to_string()));
    assert_eq!(qb.for_arch("arm64"), "qemu-system-aarch64");
    let bare = QemuBinary { path: "qemu-system-x86_64".to_string(), version: String::new() };
    assert_eq!(bare.sibling_path("x86_64"), None);
    assert_eq!(pick_binary(Some("/q/qemu-system-aarch64".to_string()), true, "aarch64"), "/q/qemu-system-aarch64");
    assert_eq!(pick_binary(Some("/q/qemu-system-aarch64".to_string()), false, "aarch64"), "qemu-system-aarch64");
}

#[test]
fn full_command_line() {
    let mut vm = sample_vm();
    vm.iso_path = "/isos/a.iso".to_string();
    vm.ram_mb = 4096;
    vm.cpu_cores = 2;
    let args = qemu_args(&vm, "/d.qcow2", false, true, true);
    let expect = [
        "-m", "4096", "-smp", "2", "-cdrom", "/isos/a.iso", "-drive",
        "file=/d.qcow2,format=qcow2,if=virtio", "-boot", "d", "-display", "gtk", "-enable-kvm",
        "-cpu", "host", "-vga", "virtio",
    ];
    assert_eq!(args, expect.iter().map(|s| s.to_string()).collect::<Vec<_>>());
    let args = qemu_args(&vm, "/d.qcow2", true, false, false);
    let expect = [
        "-m", "4096", "-smp", "2", "-drive", "file=/d.qcow2,format=qcow2,if=virtio", "-boot", "d",
        "-display", "none", "-vga", "virtio",
    ];
    assert_eq!(args, expect.iter().map(|s| s.to_string()).collect::<Vec<_>>());
}

#[test]
fn disk_commands() {
    assert_eq!(
        create_disk_args("/v/a.qcow2", 20),
        vec!["create", "-f", "qcow2", "/v/a.qcow2", "20G"]
    );
    let img = qemu_img_binary("/no/such/home");
    assert_eq!(img, "qemu-img");
    match not_found("/x") {
        DiskError::NotFound(p) => assert_eq!(p, "/x"),
        other => panic!("expected NotFound, got {:?}", other),
    }
}

#[test]
fn downloader_placeholders() {
    assert_eq!(qemu_binary_name("aarch64"), "qemu-system-aarch64");
    assert_eq!(qemu_binary_name("arm64"), "qemu-system-x86_64");
    assert_eq!(astra_vm_qemu_dir("/home/a"), "/home/a/.local/share/astra-vm/qemu");
    match download_with_progress("http://x", "/tmp/x", |_a: u64, _b: u64| {}) {
        Err(QemuDownloadError::DownloadFailed(m)) => {
            assert_eq!(m, "download_with_progress not yet implemented")
        }
        other => panic!("expected DownloadFailed, got {:?}", other),
    }
    match extract_zip("/a.zip", "/b") {
        Err(QemuDownloadError::ExtractionFailed(m)) => assert_eq!(m, "extract_zip not yet implemented"),
        other => panic!("expected ExtractionFailed, got {:?}", other),
    }
}

#[test]
fn qemu_resolution_order() {
    assert_eq!(resolve_qemu("/b".to_string(), true, Some("/usr/bin/q".to_string())).unwrap(), "/b");
    assert_eq!(resolve_qemu("/b".to_string(), false, Some("/usr/bin/q".to_string())).unwrap(), "/usr/bin/q");
    match resolve_qemu("/b".to_string(), false, None) {
        Err(QemuDownloadError::DownloadFailed(m)) => assert!(m.starts_with("QEMU not installed")),
        other => panic!("expected DownloadFailed, got {:?}", other),
    }
}

#[test]
fn ensure_installed_finds_qemu_or_explains() {
    match astraos::qemu_downloader::ensure_qemu_installed("/no/such/home") {
        Ok(p) => assert!(p.ends_with("qemu-system-x86_64")),
        Err(astraos::qemu_downloader::QemuDownloadError::DownloadFailed(m)) => assert_eq!(
            m,
            "QEMU not installed \u{2014} please download QEMU portable and extract to ~/.local/share/astra-vm/qemu/"
        ),
        Err(other) => panic!("unexpected {:?}", other),
    }
}

#[test]
fn qemu_img_choice_prefers_the_portable_install() {
    assert_eq!(
        qemu_img_choice("/home/u", true),
        "/home/u/.local/share/astra-vm/qemu/qemu-img"
    );
    assert_eq!(qemu_img_choice("/home/u", false), "qemu-img");
}
