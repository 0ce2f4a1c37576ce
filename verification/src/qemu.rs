//! QEMU binaries and the command line that launches a VM.

use vstd::prelude::*;
use crate::paths::{exists_answer, is_file_answer, join, path_join, probe_exists, probe_is_file};
use crate::text::{decimal_string, opt_str_view, str_eq, to_owned_string, views};
use crate::vm_config::VmConfig;

verus! {

/// A resolved QEMU binary plus its `--version` banner.
#[derive(Debug, Clone)]
pub struct QemuBinary {
    /// File-system path (absolute for a portable install, a bare name for a
    /// `$PATH` lookup).
    pub path: String,
    /// First line of `qemu-system-* --version`.
    pub version: String,
}

/// Errors while detecting or spawning QEMU.
#[derive(Debug)]
pub enum QemuError {
    NotFound,
    PermissionDenied,
    SpawnFailed(String),
}

/// The QEMU system emulator for an architecture: `aarch64` and `arm64` use
/// `qemu-system-aarch64`, everything else `qemu-system-x86_64`.
pub open spec fn arch_binary_of(arch: Seq<char>) -> Seq<char> {
    if arch == "aarch64"@ || arch == "arm64"@ {
        "qemu-system-aarch64"@
    } else {
        "qemu-system-x86_64"@
    }
}

/// The QEMU binary basename for an architecture.
pub fn arch_binary_name(arch: &str) -> (res: &'static str)
    ensures
        res@ == arch_binary_of(arch@),
{
    if str_eq(arch, "aarch64") || str_eq(arch, "arm64") {
        "qemu-system-aarch64"
    } else {
        "qemu-system-x86_64"
    }
}

/// The bare QEMU binary name for an architecture (looked up in `$PATH`).
pub fn qemu_arch_binary(arch: &str) -> (res: String)
    ensures
        res@ == arch_binary_of(arch@),
{
    to_owned_string(arch_binary_name(arch))
}

/// The parent of a path as `std::path::Path::parent` computes it (the path
/// without its last component; `None` for a root or an empty path).
pub uninterp spec fn parent_of(path: Seq<char>) -> Option<Seq<char>>;

/// std's `Path::parent`, as text. Its result is named by `parent_of`: the
/// component rules (repeated and trailing separators, `.` components) are
/// not restated here.
#[verifier::external_body]
pub(crate) fn path_parent(path: &str) -> (res: Option<String>)
    ensures
        match res {
            Some(p) => parent_of(path@) == Some(p@),
            None => parent_of(path@) is None,
        },
{
    match std::path::Path::new(path).parent() {
        Some(p) => Some(p.to_string_lossy().into_owned()),
        None => None,
    }
}

/// The sibling binary for `arch` next to a binary whose parent directory
/// is `parent`: `None` when there is no parent or it is empty (a bare name).
pub open spec fn sibling_of(parent: Option<Seq<char>>, arch: Seq<char>) -> Option<Seq<char>> {
    match parent {
        Some(p) => if p.len() > 0 {
            Some(join(p, arch_binary_of(arch)))
        } else {
            None
        },
        None => None,
    }
}

/// The binary to run: the sibling when it exists, otherwise the bare name.
pub open spec fn chosen_binary(sibling: Option<Seq<char>>, sibling_exists: bool, arch: Seq<char>) -> Seq<char> {
    match sibling {
        Some(s) => if sibling_exists {
            s
        } else {
            arch_binary_of(arch)
        },
        None => arch_binary_of(arch),
    }
}

/// The binary to run given the sibling candidate and whether it exists.
pub fn pick_binary(sibling: Option<String>, sibling_exists: bool, arch: &str) -> (res: String)
    ensures
        res@ == chosen_binary(
            match sibling { Some(s) => Some(s@), None => None },
            sibling_exists,
            arch@,
        ),
{
    match sibling {
        Some(s) => if sibling_exists {
            s
        } else {
            qemu_arch_binary(arch)
        },
        None => qemu_arch_binary(arch),
    }
}

impl QemuBinary {
    /// The architecture-specific binary next to this one, when this binary
    /// lives in a directory.
    pub fn sibling_path(&self, arch: &str) -> (res: Option<String>)
        ensures
            match res {
                Some(s) => sibling_of(parent_of(self.path@), arch@) == Some(s@),
                None => sibling_of(parent_of(self.path@), arch@) is None,
            },
    {
        match path_parent(self.path.as_str()) {
            Some(p) => {
                if p.as_str().unicode_len() > 0 {
                    Some(path_join(p.as_str(), arch_binary_name(arch)))
                } else {
                    None
                }
            },
            None => None,
        }
    }

    /// The architecture-specific QEMU binary: the sibling of this binary in
    /// its directory when that file exists, otherwise the bare name for a
    /// `$PATH` lookup.
    pub fn for_arch(&self, arch: &str) -> (res: String)
        ensures
            exists|present: bool| res@ == chosen_binary(sibling_of(parent_of(self.path@), arch@), present, arch@),
            sibling_of(parent_of(self.path@), arch@) is None ==> res@ == arch_binary_of(arch@),
            sibling_of(parent_of(self.path@), arch@) matches Some(s) ==> exists|present: bool|
                #[trigger] exists_answer(s, present) && res@ == (if present { s } else { arch_binary_of(arch@) }),
    {
        let sibling = self.sibling_path(arch);
        let present = match &sibling {
            Some(s) => probe_exists(s.as_str()),
            None => false,
        };
        let ghost sib = opt_str_view(sibling);
        let res = pick_binary(sibling, present, arch);
        assert(sib matches Some(s) ==> exists_answer(s, present));
        res
    }
}

/// The `-drive` argument for a disk image.
pub open spec fn drive_arg(disk: Seq<char>) -> Seq<char> {
    "file="@ + disk + ",format=qcow2,if=virtio"@
}

/// The QEMU command line: memory, cores, the CD-ROM when there is one, the
/// virtio disk, boot from CD first, the display (`none` when headless,
/// `gtk` otherwise), KVM with host CPU passthrough when available, and
/// virtio graphics.
pub open spec fn qemu_args_of(
    ram_mb: u32,
    cpu_cores: u32,
    cdrom: Option<Seq<char>>,
    disk: Seq<char>,
    headless: bool,
    kvm: bool,
) -> Seq<Seq<char>> {
    seq!["-m"@, crate::text::dec(ram_mb as nat), "-smp"@, crate::text::dec(cpu_cores as nat)]
        + match cdrom {
        Some(iso) => seq!["-cdrom"@, iso],
        None => Seq::empty(),
    } + seq!["-drive"@, drive_arg(disk), "-boot"@, "d"@, "-display"@, if headless {
        "none"@
    } else {
        "gtk"@
    }] + if kvm {
        seq!["-enable-kvm"@, "-cpu"@, "host"@]
    } else {
        Seq::empty()
    } + seq!["-vga"@, "virtio"@]
}

/// Attaching a CD-ROM puts exactly `-cdrom ISO` right after the memory and
/// core settings and leaves the rest of the command line as it is without
/// one.
pub proof fn lemma_cdrom_inserted(
    ram_mb: u32,
    cpu_cores: u32,
    iso: Seq<char>,
    disk: Seq<char>,
    headless: bool,
    kvm: bool,
)
    ensures
        ({
            let with = qemu_args_of(ram_mb, cpu_cores, Some(iso), disk, headless, kvm);
            let without = qemu_args_of(ram_mb, cpu_cores, None, disk, headless, kvm);
            &&& with[4] == "-cdrom"@
            &&& with[5] == iso
            &&& with.len() == without.len() + 2
            &&& with == without.subrange(0, 4) + seq!["-cdrom"@, iso] + without.subrange(4, without.len() as int)
        }),
{
    let with = qemu_args_of(ram_mb, cpu_cores, Some(iso), disk, headless, kvm);
    let without = qemu_args_of(ram_mb, cpu_cores, None, disk, headless, kvm);
    assert(with =~= without.subrange(0, 4) + seq!["-cdrom"@, iso] + without.subrange(4, without.len() as int));
}

/// The CD-ROM of a VM: its ISO path when that is set and names a file.
pub open spec fn cdrom_of(iso_path: Seq<char>, iso_is_file: bool) -> Option<Seq<char>> {
    if iso_path.len() > 0 && iso_is_file {
        Some(iso_path)
    } else {
        None
    }
}

fn push_lit(args: &mut Vec<String>, s: &str)
    ensures
        views(final(args)@) == views(old(args)@).push(s@),
{
    args.push(to_owned_string(s));
    proof {
        assert(views(final(args)@) =~= views(old(args)@).push(s@));
    }
}

fn push_owned(args: &mut Vec<String>, s: String)
    ensures
        views(final(args)@) == views(old(args)@).push(s@),
{
    args.push(s);
    proof {
        assert(views(final(args)@) =~= views(old(args)@).push(s@));
    }
}

/// The QEMU command line for `vm` with its disk at `disk_path`, given
/// whether its ISO file is present and whether KVM is available.
pub fn qemu_args(vm: &VmConfig, disk_path: &str, headless: bool, iso_present: bool, kvm: bool) -> (res: Vec<String>)
    ensures
        views(res@) == qemu_args_of(
            vm.ram_mb,
            vm.cpu_cores,
            cdrom_of(vm.iso_path@, iso_present),
            disk_path@,
            headless,
            kvm,
        ),
{
    let mut args: Vec<String> = Vec::new();
    push_lit(&mut args, "-m");
    push_owned(&mut args, decimal_string(vm.ram_mb as u64));
    push_lit(&mut args, "-smp");
    push_owned(&mut args, decimal_string(vm.cpu_cores as u64));
    let ghost a1 = views(args@);
    if vm.iso_path.as_str().unicode_len() > 0 && iso_present {
        push_lit(&mut args, "-cdrom");
        push_owned(&mut args, vm.iso_path.clone());
    }
    let ghost a2 = views(args@);
    push_lit(&mut args, "-drive");
    let mut drive = to_owned_string("file=");
    drive.append(disk_path);
    drive.append(",format=qcow2,if=virtio");
    push_owned(&mut args, drive);
    push_lit(&mut args, "-boot");
    push_lit(&mut args, "d");
    push_lit(&mut args, "-display");
    if headless {
        push_lit(&mut args, "none");
    } else {
        push_lit(&mut args, "gtk");
    }
    let ghost a3 = views(args@);
    if kvm {
        push_lit(&mut args, "-enable-kvm");
        push_lit(&mut args, "-cpu");
        push_lit(&mut args, "host");
    }
    let ghost a4 = views(args@);
    push_lit(&mut args, "-vga");
    push_lit(&mut args, "virtio");
    proof {
        let c = match cdrom_of(vm.iso_path@, iso_present) {
            Some(iso) => seq!["-cdrom"@, iso],
            None => Seq::<Seq<char>>::empty(),
        };
        assert(a2 =~= a1 + c);
        assert(views(args@) =~= qemu_args_of(
            vm.ram_mb,
            vm.cpu_cores,
            cdrom_of(vm.iso_path@, iso_present),
            disk_path@,
            headless,
            kvm,
        ));
    }
    args
}

/// The QEMU command line for `vm`, choosing headless mode (`-display
/// none`) or a GTK window; the ISO is attached when its path is set and
/// names a file at the time of the call.
pub fn build_qemu_args_with_headless(vm: &VmConfig, disk_path: &str, headless: bool, kvm: bool) -> (res: Vec<String>)
    ensures
        exists|iso_is_file: bool|
            views(res@) == qemu_args_of(
                vm.ram_mb,
                vm.cpu_cores,
                cdrom_of(vm.iso_path@, iso_is_file),
                disk_path@,
                headless,
                kvm,
            ),
        vm.iso_path@.len() == 0 ==> views(res@) == qemu_args_of(vm.ram_mb, vm.cpu_cores, None, disk_path@, headless, kvm),
        vm.iso_path@.len() > 0 ==> exists|iso_is_file: bool|
            #[trigger] is_file_answer(vm.iso_path@, iso_is_file) && views(res@) == qemu_args_of(
                vm.ram_mb,
                vm.cpu_cores,
                if iso_is_file { Some(vm.iso_path@) } else { None },
                disk_path@,
                headless,
                kvm,
            ),
{
    let iso_present = vm.iso_path.as_str().unicode_len() > 0 && probe_is_file(vm.iso_path.as_str());
    qemu_args(vm, disk_path, headless, iso_present, kvm)
}

/// The QEMU command line for `vm` with a GTK display.
pub fn build_qemu_args(vm: &VmConfig, disk_path: &str, kvm: bool) -> (res: Vec<String>)
    ensures
        exists|iso_is_file: bool|
            views(res@) == qemu_args_of(
                vm.ram_mb,
                vm.cpu_cores,
                cdrom_of(vm.iso_path@, iso_is_file),
                disk_path@,
                false,
                kvm,
            ),
        vm.iso_path@.len() == 0 ==> views(res@) == qemu_args_of(vm.ram_mb, vm.cpu_cores, None, disk_path@, false, kvm),
        vm.iso_path@.len() > 0 ==> exists|iso_is_file: bool|
            #[trigger] is_file_answer(vm.iso_path@, iso_is_file) && views(res@) == qemu_args_of(
                vm.ram_mb,
                vm.cpu_cores,
                if iso_is_file { Some(vm.iso_path@) } else { None },
                disk_path@,
                false,
                kvm,
            ),
{
    build_qemu_args_with_headless(vm, disk_path, false, kvm)
}

// ---------------------------------------------------------------------
// Detection
// ---------------------------------------------------------------------

/// Checks that a binary is executable from its Unix permission bits
/// (`None` when its metadata could not be read): `NotFound` without
/// metadata, `PermissionDenied` when no execute bit (`0o111`) is set.
pub fn check_executable(mode: Option<u32>) -> (res: Result<(), QemuError>)
    ensures
        match mode {
            None => res matches Err(QemuError::NotFound),
            Some(m) => if m & 0o111u32 == 0 {
                res matches Err(QemuError::PermissionDenied)
            } else {
                res is Ok
            },
        },
{
    match mode {
        None => Err(QemuError::NotFound),
        Some(m) => if m & 0o111 == 0 {
            Err(QemuError::PermissionDenied)
        } else {
            Ok(())
        },
    }
}

/// The first line of `text` as `str::lines` yields it: the text before the
/// first `\n`, without a trailing `\r`; `None` for empty text.
pub open spec fn first_line_of(text: Seq<char>) -> Option<Seq<char>> {
    if text.len() == 0 {
        None
    } else {
        let line = match crate::text::split_once(text, '\n') {
            Some((l, _)) => l,
            None => text,
        };
        Some(if line.len() > 0 && line.last() == '\r' { line.drop_last() } else { line })
    }
}

/// The first line of a command's output.
pub fn first_line(text: &str) -> (res: Option<String>)
    ensures
        crate::text::opt_str_view(res) == first_line_of(text@),
{
    let cs = crate::text::chars_of(text);
    if cs.len() == 0 {
        return None;
    }
    let line: Vec<char> = match crate::text::split_once_chars(cs.as_slice(), '\n') {
        Some((l, _)) => l,
        None => cs,
    };
    if line.len() > 0 && line[line.len() - 1] == '\r' {
        let t = crate::text::slice_chars(line.as_slice(), 0, line.len() - 1);
        assert(t@ =~= line@.drop_last());
        Some(crate::text::from_chars(t.as_slice()))
    } else {
        Some(crate::text::from_chars(line.as_slice()))
    }
}

/// The version banner of a binary from its `--version` run: the first line
/// of its output when it succeeded, otherwise `unknown`.
pub open spec fn version_of(succeeded: bool, stdout: Seq<char>) -> Seq<char> {
    if succeeded && first_line_of(stdout) is Some {
        first_line_of(stdout).unwrap()
    } else {
        "unknown"@
    }
}

/// The version banner from a `--version` run.
pub fn version_from_output(succeeded: bool, stdout: &str) -> (res: String)
    ensures
        res@ == version_of(succeeded, stdout@),
{
    if succeeded {
        match first_line(stdout) {
            Some(l) => l,
            None => to_owned_string("unknown"),
        }
    } else {
        to_owned_string("unknown")
    }
}

/// What a probe of the machine found: the portable binary (its path,
/// whether it is a file, its permission bits, and its `--version` run), and
/// the `--version` run of `qemu-system-x86_64` from `$PATH` (`None` when it
/// could not be started).
pub struct QemuProbe {
    pub portable_path: String,
    pub portable_is_file: bool,
    pub portable_mode: Option<u32>,
    pub portable_version: (bool, String),
    pub system_version: Option<(bool, String)>,
}

/// The QEMU binary a probe points to: the portable install when it is a
/// file (and executable), else the system binary when its `--version` run
/// succeeded (banner: its first line, or the binary's name), else
/// `NotFound`.
pub fn detect_qemu_from(probe: &QemuProbe) -> (res: Result<QemuBinary, QemuError>)
    ensures
        probe.portable_is_file ==> match probe.portable_mode {
            None => res matches Err(QemuError::NotFound),
            Some(m) => if m & 0o111u32 == 0 {
                res matches Err(QemuError::PermissionDenied)
            } else {
                res matches Ok(b) && b.path@ == probe.portable_path@ && b.version@ == version_of(
                    probe.portable_version.0,
                    probe.portable_version.1@,
                )
            },
        },
        !probe.portable_is_file ==> match probe.system_version {
            Some((true, out)) => res matches Ok(b) && b.path@ == "qemu-system-x86_64"@
                && b.version@ == match first_line_of(out@) {
                Some(l) => l,
                None => "qemu-system-x86_64"@,
            },
            _ => res matches Err(QemuError::NotFound),
        },
{
    if probe.portable_is_file {
        check_executable(probe.portable_mode)?;
        return Ok(QemuBinary {
            path: probe.portable_path.clone(),
            version: version_from_output(probe.portable_version.0, probe.portable_version.1.as_str()),
        });
    }
    match &probe.system_version {
        Some((true, out)) => {
            let version = match first_line(out.as_str()) {
                Some(l) => l,
                None => to_owned_string("qemu-system-x86_64"),
            };
            Ok(QemuBinary { path: to_owned_string("qemu-system-x86_64"), version })
        },
        _ => Err(QemuError::NotFound),
    }
}

} // verus!
