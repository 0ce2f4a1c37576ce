use astraos::qemu::QemuBinary;
use astraos::vm_config::{vm_from_form, AppConfig};
use astraos::vm_manager::{start_outcome, LaunchPlan, VmError, VmManager};

fn stub_manager() -> VmManager {
    VmManager::new(
        AppConfig::default(),
        QemuBinary {
            path: "qemu-system-x86_64".to_string(),
            version: String::new(),
        },
    )
}

#[test]
fn delete_unknown_vm_returns_not_found() {
    let mut m = stub_manager();
    match m.delete_vm("does-not-exist") {
        Err(VmError::NotFound(id)) => assert_eq!(id, "does-not-exist"),
        other => panic!("expected NotFound, got {:?}", other),
    }
}

#[test]
fn start_unknown_vm_returns_not_found() {
    let m = stub_manager();
    match m.start_vm("missing", "/home/astra", false) {
        Err(VmError::NotFound(id)) => assert_eq!(id, "missing"),
        other => panic!("expected NotFound, got {:?}", other),
    }
}

#[test]
fn is_running_false_for_unknown_vm() {
    let m = stub_manager();
    assert!(!m.is_running("nope"));
}

#[test]
fn running_vms_starts_empty() {
    let m = stub_manager();
    assert!(m.running_vms().is_empty());
}

#[test]
fn start_without_disk_reports_missing_image() {
    let mut m = stub_manager();
    m.config.add_vm(vm_from_form("A", "", "x86_64", 512, 1, 1, 9).unwrap());
    match m.start_vm("vm-9", "/no/such/home", false) {
        Err(VmError::IoError(msg)) => assert_eq!(
            msg,
            "disk image missing for VM vm-9: /no/such/home/.local/share/astra-vm/vms/vm-9.qcow2"
        ),
        other => panic!("expected IoError, got {:?}", other),
    }
}

#[test]
fn running_table_tracks_starts_stops_and_deletes() {
    let mut m = stub_manager();
    m.config.add_vm(vm_from_form("A", "", "x86_64", 512, 1, 1, 1).unwrap());
    m.config.add_vm(vm_from_form("B", "", "x86_64", 512, 1, 1, 2).unwrap());
    m.record_start("vm-1", 100);
    m.record_start("vm-2", 200);
    m.record_start("vm-1", 101);
    assert_eq!(m.running_pid("vm-1"), Some(101));
    assert_eq!(m.running_vms().len(), 2);
    m.record_stop(200);
    assert!(!m.is_running("vm-2"));
    assert!(m.is_running("vm-1"));
    assert!(m.delete_vm("vm-1").is_ok());
    assert!(!m.is_running("vm-1"));
    assert!(m.config.get_vm("vm-1").is_none());
    assert_eq!(m.config.vms.len(), 1);
}

#[test]
fn disk_path_under_home() {
    assert_eq!(
        VmManager::disk_path_for("/home/a", "x"),
        "/home/a/.local/share/astra-vm/vms/x.qcow2"
    );
}

#[test]
fn create_vm_registers_and_names_disk() {
    let mut m = stub_manager();
    let vm = vm_from_form("Ubuntu", "/isos/u.iso", "x86_64", 2048, 2, 10, 5).unwrap();
    let disk = m.create_vm(vm, "/home/a");
    assert_eq!(disk, "/home/a/.local/share/astra-vm/vms/vm-5.qcow2");
    assert_eq!(m.config.vms.len(), 1);
    assert_eq!(m.config.get_vm("vm-5").unwrap().name, "Ubuntu");
    assert!(!m.is_running("vm-5"));
}

fn sample_plan() -> LaunchPlan {
    LaunchPlan {
        binary: "qemu-system-x86_64".to_string(),
        args: vec!["-m".to_string(), "1024".to_string()],
    }
}

#[test]
fn start_outcome_launches_when_the_disk_exists() {
    match start_outcome("vm-1", "/data/vm-1.qcow2", true, sample_plan()) {
        Ok(p) => {
            assert_eq!(p.binary, "qemu-system-x86_64");
            assert_eq!(p.args, vec!["-m".to_string(), "1024".to_string()]);
        }
        Err(e) => panic!("expected the plan, got {:?}", e),
    }
}

#[test]
fn start_outcome_refuses_a_missing_disk() {
    match start_outcome("vm-1", "/data/vm-1.qcow2", false, sample_plan()) {
        Err(VmError::IoError(m)) => assert_eq!(m, "disk image missing for VM vm-1: /data/vm-1.qcow2"),
        other => panic!("expected IoError, got {:?}", other),
    }
}
