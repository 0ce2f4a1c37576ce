//! qcow2 disk images: which `qemu-img` to run and with which arguments.

use vstd::prelude::*;
use crate::paths::{is_file_answer, join, path_join, probe_is_file};
use crate::text::views;
use crate::text::{dec, decimal_string, to_owned_string};
use crate::vm_config::{data_dir_of, qemu_data_dir, qemu_data_subdir};

verus! {

/// Errors of disk operations.
#[derive(Debug)]
pub enum DiskError {
    QemuImgFailed(String),
    NotFound(String),
    IoError(String),
}

/// The portable `qemu-img` under `~/.local/share/astra-vm/qemu`.
pub open spec fn portable_qemu_img_of(home: Seq<char>) -> Seq<char> {
    join(join(data_dir_of(home), qemu_data_subdir()), "qemu-img"@)
}

/// The `qemu-img` to run: the portable one when it is a file, otherwise the
/// bare name for a `$PATH` lookup.
pub open spec fn qemu_img_of(home: Seq<char>, portable_is_file: bool) -> Seq<char> {
    if portable_is_file {
        portable_qemu_img_of(home)
    } else {
        "qemu-img"@
    }
}

/// The `qemu-img` binary: portable install first, then `$PATH`, through
/// `qemu_img_choice` with whether the portable one is a file.
pub fn qemu_img_binary(home: &str) -> (res: String)
    ensures
        exists|is_file: bool| res@ == qemu_img_of(home@, is_file),
        exists|is_file: bool| #[trigger] is_file_answer(portable_qemu_img_of(home@), is_file) && res@ == qemu_img_of(home@, is_file),
{
    let dir = qemu_data_dir(home);
    let portable = path_join(dir.as_str(), "qemu-img");
    let is_file = probe_is_file(portable.as_str());
    let res = qemu_img_choice(home, is_file);
    assert(portable@ == portable_qemu_img_of(home@));
    assert(is_file_answer(portable_qemu_img_of(home@), is_file));
    res
}

/// The `qemu-img` to run once the portable one was probed: the portable
/// one under `home` when it is a file, otherwise the bare name.
pub fn qemu_img_choice(home: &str, portable_is_file: bool) -> (res: String)
    ensures
        res@ == qemu_img_of(home@, portable_is_file),
{
    if portable_is_file {
        let dir = qemu_data_dir(home);
        path_join(dir.as_str(), "qemu-img")
    } else {
        to_owned_string("qemu-img")
    }
}

/// The arguments of `qemu-img create -f qcow2 <path> <size_gb>G`.
pub open spec fn create_disk_args_of(path: Seq<char>, size_gb: u32) -> Seq<Seq<char>> {
    seq!["create"@, "-f"@, "qcow2"@, path, dec(size_gb as nat) + "G"@]
}

/// The `qemu-img` arguments that create a qcow2 image of `size_gb` GB at
/// `path`.
pub fn create_disk_args(path: &str, size_gb: u32) -> (res: Vec<String>)
    ensures
        views(res@) == create_disk_args_of(path@, size_gb),
{
    let mut size = decimal_string(size_gb as u64);
    size.append("G");
    let mut v: Vec<String> = Vec::new();
    v.push(to_owned_string("create"));
    v.push(to_owned_string("-f"));
    v.push(to_owned_string("qcow2"));
    v.push(to_owned_string(path));
    v.push(size);
    proof {
        assert(views(v@) =~= create_disk_args_of(path@, size_gb));
    }
    v
}

/// The error for a disk image that does not exist.
pub fn not_found(path: &str) -> (res: DiskError)
    ensures
        res matches DiskError::NotFound(p) && p@ == path@,
{
    DiskError::NotFound(to_owned_string(path))
}

/// The error for a `qemu-img` run that failed: its standard error output,
/// trimmed.
pub fn qemu_img_failure(stderr: &str) -> (res: DiskError)
    ensures
        res matches DiskError::QemuImgFailed(m) && m@ == crate::text::trim(stderr@),
{
    let t = crate::text::trim_str(stderr);
    DiskError::QemuImgFailed(crate::text::from_chars(t.as_slice()))
}

} // verus!
