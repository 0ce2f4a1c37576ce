//! Locating the QEMU portable install, and the placeholders for
//! downloading and unpacking it.

use vstd::prelude::*;
use crate::paths::{exists_answer, join, path_join, probe_exists};
use crate::text::{opt_str_view, to_owned_string};

verus! {

/// Errors while locating or downloading QEMU.
#[derive(Debug)]
pub enum QemuDownloadError {
    /// HTTP or network failure while downloading.
    DownloadFailed(String),
    /// Failed to extract the downloaded archive.
    ExtractionFailed(String),
    /// Platform not supported by the auto-downloader.
    PlatformUnsupported,
}

/// Where Astra VM keeps its bundled QEMU: `~/.local/share/astra-vm/qemu`.
pub open spec fn astra_vm_qemu_dir_of(home: Seq<char>) -> Seq<char> {
    join(home, ".local/share/astra-vm/qemu"@)
}

/// The bundled QEMU directory under the home directory `home`.
pub fn astra_vm_qemu_dir(home: &str) -> (res: String)
    ensures
        res@ == astra_vm_qemu_dir_of(home@),
{
    path_join(home, ".local/share/astra-vm/qemu")
}

/// The QEMU binary looked for: `qemu-system-aarch64` for `aarch64`,
/// `qemu-system-x86_64` for everything else.
pub open spec fn qemu_binary_name_of(arch: Seq<char>) -> Seq<char> {
    if arch == "aarch64"@ {
        "qemu-system-aarch64"@
    } else {
        "qemu-system-x86_64"@
    }
}

/// The QEMU binary name for an architecture.
pub fn qemu_binary_name(arch: &str) -> (res: &'static str)
    ensures
        res@ == qemu_binary_name_of(arch@),
{
    if crate::text::str_eq(arch, "aarch64") {
        "qemu-system-aarch64"
    } else {
        "qemu-system-x86_64"
    }
}

/// `which::which`: the first executable file named `name` along `$PATH`,
/// as text. The answer depends on the environment and the disk; nothing is
/// stated of it.
#[verifier::external_body]
pub(crate) fn which_binary(name: &str) -> Option<String> {
    match which::which(name) {
        Ok(p) => Some(p.to_string_lossy().into_owned()),
        Err(_) => None,
    }
}

/// `answer` is what the `$PATH` lookup gave for the binary name `name`: the
/// result of a call of `which_binary` on that text, as text.
pub closed spec fn which_answer(name: Seq<char>, answer: Option<Seq<char>>) -> bool {
    exists|p: &str, o: Option<String>|
        #[trigger] call_ensures(which_binary, (p,), o) && p@ == name && opt_str_view(o) == answer
}

/// Looks `name` up along `$PATH`.
pub fn probe_which(name: &str) -> (res: Option<String>)
    ensures
        which_answer(name@, opt_str_view(res)),
{
    let lookup = which_binary;
    lookup(name)
}

/// The message shown when no QEMU can be found.
pub open spec fn not_installed_message() -> Seq<char> {
    "QEMU not installed — please download QEMU portable and extract to ~/.local/share/astra-vm/qemu/"@
}

/// Where QEMU is: the bundled binary when it exists, else the one found in
/// `$PATH`, else `DownloadFailed` with instructions.
pub open spec fn resolved_qemu(bundled: Seq<char>, bundled_exists: bool, system: Option<Seq<char>>) -> Result<Seq<char>, Seq<char>> {
    if bundled_exists {
        Ok(bundled)
    } else {
        match system {
            Some(p) => Ok(p),
            None => Err(not_installed_message()),
        }
    }
}

/// The bundled QEMU wins whenever it is there, whatever `$PATH` holds;
/// only without it is `$PATH` consulted, and only without both is QEMU
/// reported missing.
pub proof fn lemma_bundled_first(bundled: Seq<char>, system: Option<Seq<char>>)
    ensures
        resolved_qemu(bundled, true, system) == Ok::<Seq<char>, Seq<char>>(bundled),
        system matches Some(p) ==> resolved_qemu(bundled, false, system) == Ok::<Seq<char>, Seq<char>>(p),
        system is None ==> resolved_qemu(bundled, false, system) == Err::<Seq<char>, Seq<char>>(not_installed_message()),
{
}

/// The view of a resolution result: the path, or the download error's
/// message.
pub open spec fn resolution_view(r: Result<String, QemuDownloadError>) -> Result<Seq<char>, Seq<char>> {
    match r {
        Ok(p) => Ok(p@),
        Err(QemuDownloadError::DownloadFailed(m)) => Err(m@),
        Err(QemuDownloadError::ExtractionFailed(m)) => Err(m@),
        Err(QemuDownloadError::PlatformUnsupported) => Err(Seq::empty()),
    }
}

/// Chooses the QEMU binary from what was found on disk and in `$PATH`.
pub fn resolve_qemu(bundled: String, bundled_exists: bool, system: Option<String>) -> (res: Result<String, QemuDownloadError>)
    ensures
        resolution_view(res) == resolved_qemu(
            bundled@,
            bundled_exists,
            match system { Some(s) => Some(s@), None => None },
        ),
        res matches Err(e) ==> e is DownloadFailed,
{
    if bundled_exists {
        Ok(bundled)
    } else {
        match system {
            Some(p) => Ok(p),
            None => Err(QemuDownloadError::DownloadFailed(to_owned_string(
                "QEMU not installed — please download QEMU portable and extract to ~/.local/share/astra-vm/qemu/",
            ))),
        }
    }
}

/// Ensures QEMU is available for the user whose home directory is `home`:
/// the bundled `~/.local/share/astra-vm/qemu/qemu-system-x86_64` first,
/// then `qemu-system-x86_64` in `$PATH`, otherwise `DownloadFailed`.
pub fn ensure_qemu_installed(home: &str) -> (res: Result<String, QemuDownloadError>)
    ensures
        exists|bundled_exists: bool, system: Option<Seq<char>>|
            resolution_view(res) == resolved_qemu(
                join(astra_vm_qemu_dir_of(home@), "qemu-system-x86_64"@),
                bundled_exists,
                system,
            ),
        exists|bundled_exists: bool|
            #[trigger] exists_answer(join(astra_vm_qemu_dir_of(home@), "qemu-system-x86_64"@), bundled_exists)
            && (bundled_exists ==> (res matches Ok(p) && p@ == join(astra_vm_qemu_dir_of(home@), "qemu-system-x86_64"@)))
            && (!bundled_exists ==> exists|system: Option<Seq<char>>|
                #[trigger] which_answer("qemu-system-x86_64"@, system)
                && match system {
                    Some(found) => res matches Ok(p) && p@ == found,
                    None => res matches Err(QemuDownloadError::DownloadFailed(m)) && m@ == not_installed_message(),
                }),
{
    let bin_name = qemu_binary_name("x86_64");
    proof {
        reveal_strlit("x86_64");
        reveal_strlit("aarch64");
    }
    let dir = astra_vm_qemu_dir(home);
    let bundled = path_join(dir.as_str(), bin_name);
    let exists = probe_exists(bundled.as_str());
    let system = if exists { None } else { probe_which(bin_name) };
    let ghost sv = opt_str_view(system);
    proof {
        assert(!("x86_64"@ =~= "aarch64"@)) by {
            assert("x86_64"@[0] != "aarch64"@[0]);
        }
        assert(bundled@ == join(astra_vm_qemu_dir_of(home@), "qemu-system-x86_64"@));
    }
    let r = resolve_qemu(bundled, exists, system);
    assert(resolution_view(r) == resolved_qemu(
        join(astra_vm_qemu_dir_of(home@), "qemu-system-x86_64"@),
        exists,
        sv,
    ));
    r
}

/// Downloads a file while reporting progress. Not available yet: always
/// `DownloadFailed`.
pub fn download_with_progress<F: Fn(u64, u64)>(_url: &str, _dest: &str, _progress_callback: F) -> (res: Result<(), QemuDownloadError>)
    ensures
        res matches Err(QemuDownloadError::DownloadFailed(m)) && m@ == "download_with_progress not yet implemented"@,
{
    Err(QemuDownloadError::DownloadFailed(to_owned_string("download_with_progress not yet implemented")))
}

/// Extracts a ZIP archive. Not available yet: always `ExtractionFailed`.
pub fn extract_zip(_zip_path: &str, _dest_dir: &str) -> (res: Result<(), QemuDownloadError>)
    ensures
        res matches Err(QemuDownloadError::ExtractionFailed(m)) && m@ == "extract_zip not yet implemented"@,
{
    Err(QemuDownloadError::ExtractionFailed(to_owned_string("extract_zip not yet implemented")))
}

} // verus!
