//! Astra VM configuration model: virtual machine definitions, the VM
//! registry, OS family detection, the on-disk layout and VM identifiers.

use vstd::prelude::*;
use crate::paths::{join, path_join};
use crate::text::{
    chars_contain, chars_of, concat2, dec_i64, hex_digit, hex_digit_char, is_lower_hex, push_char, push_i64,
    seq_contains, str_eq, to_lowercase, unicode_lowercase,
};

verus! {

// ---------------------------------------------------------------------
// Defaults
// ---------------------------------------------------------------------

/// Default RAM (MB) of a VM.
pub fn default_ram() -> (r: u32)
    ensures
        r == 4096,
{
    4096
}

/// Default number of virtual CPU cores of a VM.
pub fn default_cpu() -> (r: u32)
    ensures
        r == 2,
{
    2
}

/// Default virtual disk size (GB) of a VM.
pub fn default_disk() -> (r: u32)
    ensures
        r == 20,
{
    20
}

// ---------------------------------------------------------------------
// On-disk layout
// ---------------------------------------------------------------------

pub open spec fn dot_config() -> Seq<char> {
    seq!['.', 'c', 'o', 'n', 'f', 'i', 'g']
}

pub open spec fn dot_local() -> Seq<char> {
    seq!['.', 'l', 'o', 'c', 'a', 'l']
}

pub open spec fn share() -> Seq<char> {
    seq!['s', 'h', 'a', 'r', 'e']
}

pub open spec fn astra_vm() -> Seq<char> {
    seq!['a', 's', 't', 'r', 'a', '-', 'v', 'm']
}

pub open spec fn config_toml() -> Seq<char> {
    seq!['c', 'o', 'n', 'f', 'i', 'g', '.', 't', 'o', 'm', 'l']
}

/// `astra-vm/vms`, where disk images are kept under the data directory.
pub open spec fn vm_data_subdir() -> Seq<char> {
    astra_vm() + seq!['/', 'v', 'm', 's']
}

/// `astra-vm/isos`, where ISO images are kept under the data directory.
pub open spec fn iso_data_subdir() -> Seq<char> {
    astra_vm() + seq!['/', 'i', 's', 'o', 's']
}

/// `astra-vm/qemu`, where a portable QEMU is kept under the data directory.
pub open spec fn qemu_data_subdir() -> Seq<char> {
    astra_vm() + seq!['/', 'q', 'e', 'm', 'u']
}

/// `~/.config` for the home directory `home`.
pub open spec fn config_dir_of(home: Seq<char>) -> Seq<char> {
    join(home, dot_config())
}

/// `~/.local/share` for the home directory `home`.
pub open spec fn data_dir_of(home: Seq<char>) -> Seq<char> {
    join(join(home, dot_local()), share())
}

/// `~/.config/astra-vm/config.toml` for the home directory `home`.
pub open spec fn config_path_of(home: Seq<char>) -> Seq<char> {
    join(join(config_dir_of(home), astra_vm()), config_toml())
}

/// `~/.local/share/astra-vm/vms/{vm_id}.qcow2`.
pub open spec fn vm_disk_path_of(home: Seq<char>, vm_id: Seq<char>) -> Seq<char> {
    join(join(data_dir_of(home), vm_data_subdir()), vm_id + seq!['.', 'q', 'c', 'o', 'w', '2'])
}

/// The user's configuration directory (`~/.config`) under `home`.
pub fn config_dir(home: &str) -> (res: String)
    ensures
        res@ == config_dir_of(home@),
{
    proof {
        reveal_strlit(".config");
        assert(".config"@ =~= dot_config());
    }
    path_join(home, ".config")
}

/// The user's data directory (`~/.local/share`) under `home`.
pub fn data_dir(home: &str) -> (res: String)
    ensures
        res@ == data_dir_of(home@),
{
    proof {
        reveal_strlit(".local");
        reveal_strlit("share");
        assert(".local"@ =~= dot_local());
        assert("share"@ =~= share());
    }
    let local = path_join(home, ".local");
    path_join(local.as_str(), "share")
}

/// The Astra VM configuration file, `~/.config/astra-vm/config.toml`.
pub fn config_path(home: &str) -> (res: String)
    ensures
        res@ == config_path_of(home@),
{
    proof {
        reveal_strlit("astra-vm");
        reveal_strlit("config.toml");
        assert("astra-vm"@ =~= astra_vm());
        assert("config.toml"@ =~= config_toml());
    }
    let dir = config_dir(home);
    let sub = path_join(dir.as_str(), "astra-vm");
    path_join(sub.as_str(), "config.toml")
}

/// A subdirectory of the data directory.
fn data_subdir(home: &str, sub: &str) -> (res: String)
    ensures
        res@ == join(data_dir_of(home@), sub@),
{
    let d = data_dir(home);
    path_join(d.as_str(), sub)
}

/// `~/.local/share/astra-vm/vms` (the directory itself is created by the
/// caller).
pub fn vm_data_dir(home: &str) -> (res: String)
    ensures
        res@ == join(data_dir_of(home@), vm_data_subdir()),
{
    proof {
        reveal_strlit("astra-vm/vms");
        assert("astra-vm/vms"@ =~= vm_data_subdir());
    }
    data_subdir(home, "astra-vm/vms")
}

/// `~/.local/share/astra-vm/isos` (the directory itself is created by the
/// caller).
pub fn iso_data_dir(home: &str) -> (res: String)
    ensures
        res@ == join(data_dir_of(home@), iso_data_subdir()),
{
    proof {
        reveal_strlit("astra-vm/isos");
        assert("astra-vm/isos"@ =~= iso_data_subdir());
    }
    data_subdir(home, "astra-vm/isos")
}

/// `~/.local/share/astra-vm/qemu` (the directory itself is created by the
/// caller).
pub fn qemu_data_dir(home: &str) -> (res: String)
    ensures
        res@ == join(data_dir_of(home@), qemu_data_subdir()),
{
    proof {
        reveal_strlit("astra-vm/qemu");
        assert("astra-vm/qemu"@ =~= qemu_data_subdir());
    }
    data_subdir(home, "astra-vm/qemu")
}

/// The default directory for new ISO images (`~/.local/share/astra-vm/isos`).
pub fn default_iso_dir(home: &str) -> (res: String)
    ensures
        res@ == join(data_dir_of(home@), iso_data_subdir()),
{
    iso_data_dir(home)
}

/// The qcow2 disk image of the VM `vm_id`:
/// `~/.local/share/astra-vm/vms/{vm_id}.qcow2`.
pub fn vm_disk_path(home: &str, vm_id: &str) -> (res: String)
    ensures
        res@ == vm_disk_path_of(home@, vm_id@),
{
    proof {
        reveal_strlit(".qcow2");
        assert(".qcow2"@ =~= seq!['.', 'q', 'c', 'o', 'w', '2']);
    }
    let dir = vm_data_dir(home);
    let file = concat2(vm_id, ".qcow2");
    path_join(dir.as_str(), file.as_str())
}

// ---------------------------------------------------------------------
// Time and identifiers
// ---------------------------------------------------------------------

#[verifier::external_type_specification]
#[verifier::external_body]
pub struct ExSystemTime(std::time::SystemTime);

/// `SystemTime::now`: a reading of the system clock. What it reads depends
/// on the clock; nothing is stated of it.
#[verifier::external_body]
fn system_now() -> std::time::SystemTime {
    std::time::SystemTime::now()
}

/// `SystemTime::duration_since(UNIX_EPOCH)` of a clock reading, as whole
/// seconds and the nanoseconds past them (`Duration::as_secs`,
/// `Duration::subsec_nanos`), or `None` when the reading lies before the
/// epoch. The documentation of `subsec_nanos` promises a value below one
/// second, which is all that is stated.
#[verifier::external_body]
fn since_unix_epoch(t: &std::time::SystemTime) -> (res: Option<(u64, u32)>)
    ensures
        res matches Some((_, n)) ==> n < 1_000_000_000,
{
    match t.duration_since(std::time::UNIX_EPOCH) {
        Ok(d) => Some((d.as_secs(), d.subsec_nanos())),
        Err(_) => None,
    }
}

/// The time since the Unix epoch as whole seconds and the nanoseconds past
/// them, or `None` when the system clock reads before the epoch.
pub fn time_since_epoch() -> (res: Option<(u64, u32)>)
    ensures
        res matches Some((_, n)) ==> n < 1_000_000_000,
{
    let now = system_now();
    since_unix_epoch(&now)
}

/// Unix seconds from a reading of the clock: the whole seconds (converted
/// with `as i64`), or 0 when the clock read before the epoch.
pub open spec fn unix_seconds_of(t: Option<(u64, u32)>) -> i64 {
    match t {
        Some((s, _)) => s as i64,
        None => 0,
    }
}

/// Unix seconds from a reading of the clock.
pub fn unix_seconds_from(t: Option<(u64, u32)>) -> (res: i64)
    ensures
        res == unix_seconds_of(t),
{
    match t {
        Some((s, _)) => s as i64,
        None => 0,
    }
}

/// The current Unix timestamp in seconds (0 if the clock reads before the
/// epoch).
pub fn now_unix_seconds() -> (res: i64)
    ensures
        exists|t: Option<(u64, u32)>| res == unix_seconds_of(t),
{
    let t = time_since_epoch();
    unix_seconds_from(t)
}

/// One xorshift64 step (shifts 13, 7, 17).
pub open spec fn xorshift(x: u64) -> u64 {
    let a = x ^ (x << 13u64);
    let b = a ^ (a >> 7u64);
    b ^ (b << 17u64)
}

/// The generator state after `k` steps from `seed`.
pub open spec fn id_state(seed: u64, k: nat) -> u64
    decreases k,
{
    if k == 0 {
        seed
    } else {
        xorshift(id_state(seed, (k - 1) as nat))
    }
}

/// The `i`-th hex digit of a VM id: the low nibble of byte `i % 8` of the
/// state after `i + 1` steps.
pub open spec fn id_digit(seed: u64, i: nat) -> char {
    hex_digit(((id_state(seed, i + 1) >> ((i % 8) * 8) as u64) & 0xfu64) as nat)
}

/// The number of dashes before character position `p` of a VM id.
pub open spec fn dashes_before(p: int) -> int {
    if p <= 8 {
        0
    } else if p <= 13 {
        1
    } else if p <= 18 {
        2
    } else if p <= 23 {
        3
    } else {
        4
    }
}

/// Whether character position `p` of a VM id holds a dash.
pub open spec fn is_dash_pos(p: int) -> bool {
    p == 8 || p == 13 || p == 18 || p == 23
}

/// The VM id generated from `seed`: 32 hex digits in UUID form
/// 8-4-4-4-12.
pub open spec fn vm_id_of(seed: u64) -> Seq<char> {
    Seq::new(
        36,
        |p: int|
            if is_dash_pos(p) {
                '-'
            } else {
                id_digit(seed, (p - dashes_before(p)) as nat)
            },
    )
}

/// The seed of the VM-id generator for a clock reading: the nanoseconds
/// since the epoch, truncated to 64 bits, xor a fixed odd constant.
pub open spec fn id_seed_of(t: Option<(u64, u32)>) -> u64 {
    let nanos: u128 = match t {
        Some((s, n)) => (s as u128 * 1_000_000_000u128 + n as u128) as u128,
        None => 0,
    };
    (nanos as u64) ^ 0x9E37_79B9_7F4A_7C15u64
}

/// The VM id generated from `seed`.
pub fn vm_id_from_seed(seed: u64) -> (res: String)
    ensures
        res@ == vm_id_of(seed),
{
    let mut out = String::new();
    let mut state: u64 = seed;
    let mut i: u64 = 0;
    while i < 32
        invariant
            i <= 32,
            state == id_state(seed, i as nat),
            out@.len() == i + (if i >= 8 { 1int } else { 0 }) + (if i >= 12 { 1int } else { 0 }) + (if i >= 16 { 1int } else { 0 }) + (if i >= 20 { 1int } else { 0 }),
            out@ == vm_id_of(seed).take(out@.len() as int),
        decreases 32 - i,
    {
        let a = state ^ (state << 13u64);
        let b = a ^ (a >> 7u64);
        state = b ^ (b << 17u64);
        let shift: u64 = (i % 8) * 8;
        let nib: u64 = (state >> shift) & 0xf;
        assert(nib < 16) by (bit_vector)
            requires nib == (state >> shift) & 0xf;
        let c = hex_digit_char(nib as u8);
        let ghost before = out@;
        push_char(&mut out, c);
        proof {
            let p = before.len() as int;
            assert(!is_dash_pos(p));
            assert(p - dashes_before(p) == i);
            assert(c == id_digit(seed, i as nat));
            assert(out@ =~= vm_id_of(seed).take(p + 1));
        }
        if i == 7 || i == 11 || i == 15 || i == 19 {
            let ghost before2 = out@;
            push_char(&mut out, '-');
            proof {
                assert(is_dash_pos(before2.len() as int));
                assert(out@ =~= vm_id_of(seed).take(before2.len() as int + 1));
            }
        }
        i = i + 1;
    }
    proof {
        assert(out@ =~= vm_id_of(seed));
    }
    out
}

/// A VM id seeded from a clock reading.
pub fn vm_id_from_time(t: Option<(u64, u32)>) -> (res: String)
    ensures
        res@ == vm_id_of(id_seed_of(t)),
{
    let nanos: u128 = match t {
        Some((s, n)) => s as u128 * 1_000_000_000u128 + n as u128,
        None => 0,
    };
    let seed: u64 = (nanos as u64) ^ 0x9E37_79B9_7F4A_7C15u64;
    vm_id_from_seed(seed)
}

/// Every VM id is 36 characters long, with dashes at positions 8, 13, 18
/// and 23 and lowercase hexadecimal digits everywhere else.
pub proof fn lemma_vm_id_format(seed: u64)
    ensures
        vm_id_of(seed).len() == 36,
        forall|p: int| 0 <= p < 36 ==> (#[trigger] vm_id_of(seed)[p] == '-' <==> is_dash_pos(p)),
        forall|p: int| 0 <= p < 36 && !is_dash_pos(p) ==> is_lower_hex(#[trigger] vm_id_of(seed)[p]),
{
    assert forall|p: int| 0 <= p < 36 && !is_dash_pos(p) implies is_lower_hex(#[trigger] vm_id_of(seed)[p]) && vm_id_of(seed)[p] != '-' by {
        let i = (p - dashes_before(p)) as nat;
        let x = id_state(seed, i + 1) >> ((i % 8) * 8) as u64;
        let v = x & 0xfu64;
        assert(v < 16) by (bit_vector)
            requires v == x & 0xfu64;
    }
}

/// A fresh VM id seeded from the current time (UUID-like, 8-4-4-4-12 hex
/// digits). Not cryptographically unique.
pub fn new_vm_id() -> (res: String)
    ensures
        exists|t: Option<(u64, u32)>| res@ == vm_id_of(id_seed_of(t)),
{
    let t = time_since_epoch();
    vm_id_from_time(t)
}

// ---------------------------------------------------------------------
// VM definitions
// ---------------------------------------------------------------------

/// One virtual machine definition.
#[derive(Clone, Debug)]
pub struct VmConfig {
    /// Stable identifier (UUID-style hex).
    pub id: String,
    /// User-visible display name.
    pub name: String,
    /// Path to the boot ISO image.
    pub iso_path: String,
    /// Target architecture: "x86_64" or "aarch64".
    pub architecture: String,
    /// Allocated RAM in megabytes.
    pub ram_mb: u32,
    /// Number of virtual CPU cores.
    pub cpu_cores: u32,
    /// Virtual disk size in gigabytes.
    pub disk_gb: u32,
    /// Creation timestamp (Unix seconds).
    pub created_at: i64,
    /// Last launch timestamp (Unix seconds), if ever launched.
    pub last_used: Option<i64>,
}

/// OS family inferred from a VM definition; selects its icon and palette.
#[derive(Clone, Copy, Debug, PartialEq, Eq, Structural)]
pub enum OsFamily {
    AstraOS,
    Windows,
    Linux,
    Arm,
    Unknown,
}

/// ASCII lowercase of one character (other characters unchanged).
pub open spec fn ascii_lower(c: char) -> char {
    if 'A' <= c && c <= 'Z' {
        ((c as int) + 32) as char
    } else {
        c
    }
}

/// `str::eq_ignore_ascii_case`: equal after ASCII lowercasing.
pub open spec fn eq_ignore_ascii_case(a: Seq<char>, b: Seq<char>) -> bool {
    a.len() == b.len() && forall|i: int| 0 <= i < a.len() ==> ascii_lower(a[i]) == ascii_lower(b[i])
}

/// ASCII lowercase of one character.
pub fn to_ascii_lower(c: char) -> (r: char)
    ensures
        r == ascii_lower(c),
{
    if 'A' <= c && c <= 'Z' {
        ((c as u32 + 32) as u8) as char
    } else {
        c
    }
}

/// Whether two texts match ignoring ASCII case.
pub fn str_eq_ignore_ascii_case(a: &str, b: &str) -> (res: bool)
    ensures
        res == eq_ignore_ascii_case(a@, b@),
{
    let ca = chars_of(a);
    let cb = chars_of(b);
    if ca.len() != cb.len() {
        return false;
    }
    let mut i: usize = 0;
    while i < ca.len()
        invariant
            ca@ == a@,
            cb@ == b@,
            ca@.len() == cb@.len(),
            i <= ca@.len(),
            forall|j: int| 0 <= j < i ==> ascii_lower(a@[j]) == ascii_lower(b@[j]),
        decreases ca@.len() - i,
    {
        if to_ascii_lower(ca[i]) != to_ascii_lower(cb[i]) {
            return false;
        }
        i = i + 1;
    }
    true
}

pub open spec fn aarch64() -> Seq<char> {
    seq!['a', 'a', 'r', 'c', 'h', '6', '4']
}

/// OS family from the architecture and the lowercased text
/// `"{name} {iso_path}"`: `aarch64` (any ASCII case) wins, then
/// "windows", then "astra", then any of "linux", "ubuntu", "arch",
/// "fedora" (the documented keyword list; other distribution names give
/// `Unknown`).
pub open spec fn family_of(arch: Seq<char>, lowered: Seq<char>) -> OsFamily {
    if eq_ignore_ascii_case(arch, aarch64()) {
        OsFamily::Arm
    } else if seq_contains(lowered, seq!['w', 'i', 'n', 'd', 'o', 'w', 's']) {
        OsFamily::Windows
    } else if seq_contains(lowered, seq!['a', 's', 't', 'r', 'a']) {
        OsFamily::AstraOS
    } else if seq_contains(lowered, seq!['l', 'i', 'n', 'u', 'x'])
        || seq_contains(lowered, seq!['u', 'b', 'u', 'n', 't', 'u'])
        || seq_contains(lowered, seq!['a', 'r', 'c', 'h'])
        || seq_contains(lowered, seq!['f', 'e', 'd', 'o', 'r', 'a']) {
        OsFamily::Linux
    } else {
        OsFamily::Unknown
    }
}

/// How a VM's OS family is read: an `aarch64` architecture (any ASCII
/// case) is Arm whatever the text says; otherwise "windows" in the
/// lowercased text means Windows, then "astra" AstraOS, then any of
/// "linux", "ubuntu", "arch" and "fedora" Linux; anything else is Unknown.
pub proof fn lemma_os_keywords(arch: Seq<char>, lowered: Seq<char>)
    ensures
        eq_ignore_ascii_case(arch, "aarch64"@) ==> family_of(arch, lowered) == OsFamily::Arm,
        !eq_ignore_ascii_case(arch, "aarch64"@) && seq_contains(lowered, "windows"@)
            ==> family_of(arch, lowered) == OsFamily::Windows,
        !eq_ignore_ascii_case(arch, "aarch64"@) && !seq_contains(lowered, "windows"@) && seq_contains(lowered, "astra"@)
            ==> family_of(arch, lowered) == OsFamily::AstraOS,
        !eq_ignore_ascii_case(arch, "aarch64"@) && !seq_contains(lowered, "windows"@) && !seq_contains(lowered, "astra"@)
            && (seq_contains(lowered, "linux"@) || seq_contains(lowered, "ubuntu"@) || seq_contains(lowered, "arch"@)
            || seq_contains(lowered, "fedora"@)) ==> family_of(arch, lowered) == OsFamily::Linux,
        !eq_ignore_ascii_case(arch, "aarch64"@) && !seq_contains(lowered, "windows"@) && !seq_contains(lowered, "astra"@)
            && !seq_contains(lowered, "linux"@) && !seq_contains(lowered, "ubuntu"@) && !seq_contains(lowered, "arch"@)
            && !seq_contains(lowered, "fedora"@) ==> family_of(arch, lowered) == OsFamily::Unknown,
{
    reveal_strlit("aarch64");
    reveal_strlit("windows");
    reveal_strlit("astra");
    reveal_strlit("linux");
    reveal_strlit("ubuntu");
    reveal_strlit("arch");
    reveal_strlit("fedora");
    assert("aarch64"@ =~= aarch64());
    assert("windows"@ =~= seq!['w', 'i', 'n', 'd', 'o', 'w', 's']);
    assert("astra"@ =~= seq!['a', 's', 't', 'r', 'a']);
    assert("linux"@ =~= seq!['l', 'i', 'n', 'u', 'x']);
    assert("ubuntu"@ =~= seq!['u', 'b', 'u', 'n', 't', 'u']);
    assert("arch"@ =~= seq!['a', 'r', 'c', 'h']);
    assert("fedora"@ =~= seq!['f', 'e', 'd', 'o', 'r', 'a']);
}

/// The text searched for OS keywords: `"{name} {iso_path}"`, lowercased.
pub open spec fn os_haystack(name: Seq<char>, iso_path: Seq<char>) -> Seq<char> {
    unicode_lowercase(name + seq![' '] + iso_path)
}

fn lowered_contains(hay: &[char], needle: &str) -> (res: bool)
    ensures
        res == seq_contains(hay@, needle@),
{
    let n = chars_of(needle);
    chars_contain(hay, n.as_slice())
}

impl OsFamily {
    /// OS family from an architecture and an already lowercased
    /// `"{name} {iso_path}"` text.
    pub fn from_lowered(architecture: &str, lowered: &str) -> (res: OsFamily)
        ensures
            res == family_of(architecture@, lowered@),
    {
        proof {
            reveal_strlit("aarch64");
            reveal_strlit("windows");
            reveal_strlit("astra");
            reveal_strlit("linux");
            reveal_strlit("ubuntu");
            reveal_strlit("arch");
            reveal_strlit("fedora");
            assert("aarch64"@ =~= aarch64());
            assert("windows"@ =~= seq!['w', 'i', 'n', 'd', 'o', 'w', 's']);
            assert("astra"@ =~= seq!['a', 's', 't', 'r', 'a']);
            assert("linux"@ =~= seq!['l', 'i', 'n', 'u', 'x']);
            assert("ubuntu"@ =~= seq!['u', 'b', 'u', 'n', 't', 'u']);
            assert("arch"@ =~= seq!['a', 'r', 'c', 'h']);
            assert("fedora"@ =~= seq!['f', 'e', 'd', 'o', 'r', 'a']);
        }
        if str_eq_ignore_ascii_case(architecture, "aarch64") {
            return OsFamily::Arm;
        }
        let hay = chars_of(lowered);
        let h = hay.as_slice();
        if lowered_contains(h, "windows") {
            OsFamily::Windows
        } else if lowered_contains(h, "astra") {
            OsFamily::AstraOS
        } else if lowered_contains(h, "linux") || lowered_contains(h, "ubuntu") || lowered_contains(
            h,
            "arch",
        ) || lowered_contains(h, "fedora") {
            OsFamily::Linux
        } else {
            OsFamily::Unknown
        }
    }

    /// Emoji rendered inside the icon box.
    pub fn emoji(&self) -> (res: &'static str)
        ensures
            res@ == emoji_of(*self),
    {
        match self {
            OsFamily::AstraOS => "\u{1F427}",
            OsFamily::Windows => "\u{1FA9F}",
            OsFamily::Linux => "\u{1F4BB}",
            OsFamily::Arm => "\u{1F4F1}",
            OsFamily::Unknown => "\u{1F4E6}",
        }
    }

    /// CSS modifier class selecting the icon's gradient palette.
    pub fn css_class(&self) -> (res: &'static str)
        ensures
            res@ == css_class_of(*self),
    {
        match self {
            OsFamily::AstraOS => "os-astra",
            OsFamily::Windows => "os-windows",
            OsFamily::Linux => "os-linux",
            OsFamily::Arm => "os-arm",
            OsFamily::Unknown => "os-unknown",
        }
    }
}

/// The icon emoji of each OS family.
pub open spec fn emoji_of(f: OsFamily) -> Seq<char> {
    match f {
        OsFamily::AstraOS => "\u{1F427}"@,
        OsFamily::Windows => "\u{1FA9F}"@,
        OsFamily::Linux => "\u{1F4BB}"@,
        OsFamily::Arm => "\u{1F4F1}"@,
        OsFamily::Unknown => "\u{1F4E6}"@,
    }
}

/// The CSS class of each OS family.
pub open spec fn css_class_of(f: OsFamily) -> Seq<char> {
    match f {
        OsFamily::AstraOS => "os-astra"@,
        OsFamily::Windows => "os-windows"@,
        OsFamily::Linux => "os-linux"@,
        OsFamily::Arm => "os-arm"@,
        OsFamily::Unknown => "os-unknown"@,
    }
}

impl VmConfig {
    /// A fresh VM definition with a new id, the given name, ISO path and
    /// architecture, 4096 MB RAM, 2 cores, a 20 GB disk, stamped with the
    /// current time and never launched.
    pub fn new(name: &str, iso_path: &str, architecture: &str) -> (res: Self)
        ensures
            res.name@ == name@,
            res.iso_path@ == iso_path@,
            res.architecture@ == architecture@,
            res.ram_mb == 4096,
            res.cpu_cores == 2,
            res.disk_gb == 20,
            res.last_used is None,
            exists|t: Option<(u64, u32)>| res.id@ == vm_id_of(id_seed_of(t)),
            exists|t: Option<(u64, u32)>| res.created_at == unix_seconds_of(t),
    {
        VmConfig {
            id: new_vm_id(),
            name: to_owned(name),
            iso_path: to_owned(iso_path),
            architecture: to_owned(architecture),
            ram_mb: default_ram(),
            cpu_cores: default_cpu(),
            disk_gb: default_disk(),
            created_at: now_unix_seconds(),
            last_used: None,
        }
    }

    /// Best-effort OS family detection from the name, ISO path and
    /// architecture.
    pub fn os_family(&self) -> (res: OsFamily)
        ensures
            res == family_of(self.architecture@, os_haystack(self.name@, self.iso_path@)),
    {
        let mut hay = concat2(self.name.as_str(), " ");
        hay.append(self.iso_path.as_str());
        proof {
            reveal_strlit(" ");
            assert(hay@ =~= self.name@ + seq![' '] + self.iso_path@);
        }
        let lowered = to_lowercase(hay.as_str());
        OsFamily::from_lowered(self.architecture.as_str(), lowered.as_str())
    }
}

fn to_owned(s: &str) -> (res: String)
    ensures
        res@ == s@,
{
    crate::text::to_owned_string(s)
}

// ---------------------------------------------------------------------
// The VM registry
// ---------------------------------------------------------------------

/// `i` is the first position of a VM with id `id`.
pub open spec fn first_vm(vms: Seq<VmConfig>, id: Seq<char>, i: int) -> bool {
    0 <= i < vms.len() && vms[i].id@ == id && forall|j: int| 0 <= j < i ==> vms[j].id@ != id
}

/// Some VM of `vms` has id `id`.
pub open spec fn has_vm(vms: Seq<VmConfig>, id: Seq<char>) -> bool {
    exists|i: int| 0 <= i < vms.len() && vms[i].id@ == id
}

/// `vms` without the VMs whose id is `id`.
pub open spec fn vms_without(vms: Seq<VmConfig>, id: Seq<char>) -> Seq<VmConfig> {
    vms.filter(vm_kept(id))
}

/// The VMs kept when removing id `id`.
pub open spec fn vm_kept(id: Seq<char>) -> spec_fn(VmConfig) -> bool {
    |v: VmConfig| v.id@ != id
}

/// Top-level Astra VM configuration.
#[derive(Clone, Debug)]
pub struct AppConfig {
    /// The VMs managed by Astra VM.
    pub vms: Vec<VmConfig>,
    /// Path of the QEMU binary, once known.
    pub qemu_path: Option<String>,
    /// Default directory for new ISO images.
    pub default_iso_dir: String,
}

impl Default for AppConfig {
    /// No VMs, no QEMU path, and an empty default ISO directory.
    fn default() -> (res: Self)
        ensures
            res.vms@ == Seq::<VmConfig>::empty(),
            res.qemu_path is None,
            res.default_iso_dir@ == Seq::<char>::empty(),
    {
        AppConfig { vms: Vec::new(), qemu_path: None, default_iso_dir: String::new() }
    }
}

/// The position of the first VM with id `id`.
fn find_vm_index(vms: &Vec<VmConfig>, id: &str) -> (res: Option<usize>)
    ensures
        match res {
            Some(i) => first_vm(vms@, id@, i as int),
            None => !has_vm(vms@, id@),
        },
{
    let mut i: usize = 0;
    while i < vms.len()
        invariant
            i <= vms@.len(),
            forall|j: int| 0 <= j < i ==> vms@[j].id@ != id@,
        decreases vms@.len() - i,
    {
        if str_eq(vms[i].id.as_str(), id) {
            return Some(i);
        }
        i = i + 1;
    }
    None
}

impl AppConfig {
    /// Appends a VM to the registry.
    pub fn add_vm(&mut self, vm: VmConfig)
        ensures
            final(self).vms@ == old(self).vms@.push(vm),
            final(self).qemu_path == old(self).qemu_path,
            final(self).default_iso_dir == old(self).default_iso_dir,
    {
        self.vms.push(vm);
    }

    /// Removes every VM with id `id`; true when one was removed.
    pub fn remove_vm(&mut self, id: &str) -> (res: bool)
        ensures
            final(self).vms@ == vms_without(old(self).vms@, id@),
            res == has_vm(old(self).vms@, id@),
            final(self).qemu_path == old(self).qemu_path,
            final(self).default_iso_dir == old(self).default_iso_dir,
    {
        let mut kept: Vec<VmConfig> = Vec::new();
        let mut removed = false;
        let ghost pred = vm_kept(id@);
        let mut rest: Vec<VmConfig> = Vec::new();
        std::mem::swap(&mut rest, &mut self.vms);
        let ghost orig = rest@;
        let n = rest.len();
        let mut i: usize = 0;
        while i < n
            invariant
                n == orig.len(),
                i <= n,
                rest@ == orig.skip(i as int),
                pred == vm_kept(id@),
                kept@ == orig.take(i as int).filter(pred),
                removed == has_vm(orig.take(i as int), id@),
            decreases n - i,
        {
            let v = rest.remove(0);
            proof {
                assert(v == orig[i as int]);
                assert(rest@ =~= orig.skip(i as int + 1));
                assert(orig.take(i as int + 1).drop_last() =~= orig.take(i as int));
                assert(orig.take(i as int + 1).last() == orig[i as int]);
                let t1 = orig.take(i as int + 1);
                assert(t1.filter(pred) == if pred(t1.last()) {
                    t1.drop_last().filter(pred).push(t1.last())
                } else {
                    t1.drop_last().filter(pred)
                }) by {
                    reveal_with_fuel(Seq::<_>::filter, 1);
                }
            }
            let matches = str_eq(v.id.as_str(), id);
            proof {
                let t1 = orig.take(i as int + 1);
                let t0 = orig.take(i as int);
                if matches {
                    assert(t1[i as int].id@ == id@);
                } else {
                    assert(has_vm(t1, id@) == has_vm(t0, id@)) by {
                        if has_vm(t1, id@) {
                            let j = choose|j: int| 0 <= j < t1.len() && #[trigger] t1[j].id@ == id@;
                            assert(j < i);
                            assert(t0[j] == t1[j]);
                        }
                        if has_vm(t0, id@) {
                            let j = choose|j: int| 0 <= j < t0.len() && #[trigger] t0[j].id@ == id@;
                            assert(t0[j] == t1[j]);
                        }
                    }
                }
            }
            let ghost vv = v;
            assert(matches == (vv.id@ == id@));
            assert(pred(vv) == !matches);
            if matches {
                removed = true;
            } else {
                kept.push(v);
            }
            proof {
                let t1 = orig.take(i as int + 1);
                assert(t1.drop_last() == orig.take(i as int));
                assert(t1.last() == vv);
                assert(kept@ == t1.filter(pred));
            }
            i = i + 1;
        }
        proof {
            assert(orig.take(n as int) =~= orig);
        }
        self.vms = kept;
        removed
    }

    /// The first VM with id `id`, if any.
    pub fn get_vm(&self, id: &str) -> (res: Option<&VmConfig>)
        ensures
            match res {
                Some(v) => exists|i: int| first_vm(self.vms@, id@, i) && *v == self.vms@[i],
                None => !has_vm(self.vms@, id@),
            },
    {
        match find_vm_index(&self.vms, id) {
            Some(i) => Some(&self.vms[i]),
            None => None,
        }
    }

    /// The first VM with id `id`, if any, for in-place edits.
    pub fn get_vm_mut(&mut self, id: &str) -> (res: Option<&mut VmConfig>)
        ensures
            match res {
                Some(v) => exists|i: int|
                    first_vm(old(self).vms@, id@, i) && *v == old(self).vms@[i]
                        && final(self).vms@ == old(self).vms@.update(i, *final(v))
                        && final(self).qemu_path == old(self).qemu_path
                        && final(self).default_iso_dir == old(self).default_iso_dir,
                None => !has_vm(old(self).vms@, id@) && *final(self) == *old(self),
            },
    {
        match find_vm_index(&self.vms, id) {
            Some(i) => Some(&mut self.vms[i]),
            None => None,
        }
    }
}

impl AppConfig {
    /// Stamps the first VM with id `id` as launched at `now`; false when no
    /// VM has that id.
    pub fn mark_launched(&mut self, id: &str, now: i64) -> (res: bool)
        ensures
            res == has_vm(old(self).vms@, id@),
            final(self).qemu_path == old(self).qemu_path,
            final(self).default_iso_dir == old(self).default_iso_dir,
            !res ==> final(self).vms@ == old(self).vms@,
            res ==> exists|i: int|
                first_vm(old(self).vms@, id@, i) && final(self).vms@ == old(self).vms@.update(
                    i,
                    VmConfig { last_used: Some(now), ..old(self).vms@[i] },
                ),
    {
        match self.get_vm_mut(id) {
            Some(vm) => {
                vm.last_used = Some(now);
                true
            },
            None => false,
        }
    }
}

/// After `remove_vm(id)` no VM has that id, and no other VM was dropped.
pub proof fn lemma_removed_vm_absent(vms: Seq<VmConfig>, id: Seq<char>)
    ensures
        !has_vm(vms_without(vms, id), id),
        forall|i: int| 0 <= i < vms.len() && vms[i].id@ != id ==> vms_without(vms, id).contains(#[trigger] vms[i]),
{
    broadcast use vstd::seq_lib::group_filter_ensures;
    let r = vms_without(vms, id);
    if has_vm(r, id) {
        let j = choose|j: int| 0 <= j < r.len() && r[j].id@ == id;
        assert(vm_kept(id)(r[j]));
    }
    assert forall|i: int| 0 <= i < vms.len() && vms[i].id@ != id implies r.contains(#[trigger] vms[i]) by {
        assert(vm_kept(id)(vms[i]));
    }
}

/// A VM added under a new id is the one `get_vm` finds for that id.
pub proof fn lemma_added_vm_found(vms: Seq<VmConfig>, vm: VmConfig)
    requires
        !has_vm(vms, vm.id@),
    ensures
        first_vm(vms.push(vm), vm.id@, vms.len() as int),
        vms.push(vm)[vms.len() as int] == vm,
{
    let s = vms.push(vm);
    assert forall|j: int| 0 <= j < vms.len() implies s[j].id@ != vm.id@ by {
        assert(s[j] == vms[j]);
    }
}

// ---------------------------------------------------------------------
// The "new VM" form
// ---------------------------------------------------------------------

/// The architecture picked in the form: `aarch64` when the selected label
/// starts with it, `x86_64` otherwise.
pub open spec fn architecture_of_label(label: Seq<char>) -> Seq<char> {
    if crate::text::starts_with(label, "aarch64"@) {
        "aarch64"@
    } else {
        "x86_64"@
    }
}

/// The architecture for a label of the form's architecture list.
pub fn architecture_for_label(label: &str) -> (res: String)
    ensures
        res@ == architecture_of_label(label@),
{
    let l = chars_of(label);
    let p = chars_of("aarch64");
    if crate::text::chars_start_with(l.as_slice(), p.as_slice()) {
        to_owned("aarch64")
    } else {
        to_owned("x86_64")
    }
}


/// `vm` is the VM the form builds at time `now`: id `vm-{now}`, the given
/// name and ISO, the architecture of the chosen label, the chosen sizes,
/// created at `now`, never launched.
pub open spec fn form_vm(
    vm: VmConfig,
    name: Seq<char>,
    iso_path: Seq<char>,
    arch_label: Seq<char>,
    ram_mb: u32,
    cpu_cores: u32,
    disk_gb: u32,
    now: i64,
) -> bool {
    &&& vm.id@ == "vm-"@ + dec_i64(now)
    &&& vm.name@ == name
    &&& vm.iso_path@ == iso_path
    &&& vm.architecture@ == architecture_of_label(arch_label)
    &&& vm.ram_mb == ram_mb
    &&& vm.cpu_cores == cpu_cores
    &&& vm.disk_gb == disk_gb
    &&& vm.created_at == now
    &&& vm.last_used is None
}

/// The VM the form creates when "Create" is clicked at time `now`: nothing
/// without a name; otherwise id `vm-{now}`, the chosen ISO, the
/// architecture of the chosen label, the chosen sizes, created at `now`,
/// never launched.
pub fn vm_from_form(
    name: &str,
    iso_path: &str,
    arch_label: &str,
    ram_mb: u32,
    cpu_cores: u32,
    disk_gb: u32,
    now: i64,
) -> (res: Option<VmConfig>)
    ensures
        name@.len() == 0 ==> res is None,
        name@.len() > 0 ==> (res matches Some(vm) && {
            &&& vm.id@ == "vm-"@ + dec_i64(now)
            &&& vm.name@ == name@
            &&& vm.iso_path@ == iso_path@
            &&& vm.architecture@ == architecture_of_label(arch_label@)
            &&& vm.ram_mb == ram_mb
            &&& vm.cpu_cores == cpu_cores
            &&& vm.disk_gb == disk_gb
            &&& vm.created_at == now
            &&& vm.last_used is None
        }),
{
    if name.unicode_len() == 0 {
        return None;
    }
    let mut id = to_owned("vm-");
    push_i64(&mut id, now);
    Some(VmConfig {
        id,
        name: to_owned(name),
        iso_path: to_owned(iso_path),
        architecture: architecture_for_label(arch_label),
        ram_mb,
        cpu_cores,
        disk_gb,
        created_at: now,
        last_used: None,
    })
}

/// The "new VM" dialog: whether it shows, and whether a create callback
/// is installed and not yet used.
pub struct NewVmModal {
    visible: bool,
    armed: bool,
}

impl NewVmModal {
    /// Whether the dialog shows.
    pub closed spec fn shows(&self) -> bool {
        self.visible
    }

    /// Whether a create callback waits to be called.
    pub closed spec fn armed(&self) -> bool {
        self.armed
    }

    /// A hidden dialog with no create callback.
    pub fn new() -> (res: NewVmModal)
        ensures
            !res.shows(),
            !res.armed(),
    {
        NewVmModal { visible: false, armed: false }
    }

    /// Shows the dialog.
    pub fn show(&mut self)
        ensures
            final(self).shows(),
            final(self).armed() == old(self).armed(),
    {
        self.visible = true;
    }

    /// Installs the create callback (replacing any earlier one).
    pub fn set_on_create(&mut self)
        ensures
            final(self).armed(),
            final(self).shows() == old(self).shows(),
    {
        self.armed = true;
    }

    /// A click on "Annuler": the dialog hides.
    pub fn cancel(&mut self)
        ensures
            !final(self).shows(),
            final(self).armed() == old(self).armed(),
    {
        self.visible = false;
    }

    /// A click on "Créer" with the form's values at time `now`. Without a
    /// name nothing happens. Otherwise the dialog hides and the VM goes to
    /// the create callback, which is used up: the VM is returned when a
    /// callback was installed, and `None` when it was already used or never
    /// installed.
    pub fn create(
        &mut self,
        name: &str,
        iso_path: &str,
        arch_label: &str,
        ram_mb: u32,
        cpu_cores: u32,
        disk_gb: u32,
        now: i64,
    ) -> (res: Option<VmConfig>)
        ensures
            name@.len() == 0 ==> res is None && final(self).shows() == old(self).shows() && final(self).armed()
                == old(self).armed(),
            name@.len() > 0 ==> !final(self).shows() && !final(self).armed(),
            name@.len() > 0 && old(self).armed() ==> (res matches Some(vm) && form_vm(
                vm,
                name@,
                iso_path@,
                arch_label@,
                ram_mb,
                cpu_cores,
                disk_gb,
                now,
            )),
            name@.len() > 0 && !old(self).armed() ==> res is None,
    {
        let vm = match vm_from_form(name, iso_path, arch_label, ram_mb, cpu_cores, disk_gb, now) {
            Some(vm) => vm,
            None => {
                return None;
            },
        };
        let fire = self.armed;
        self.armed = false;
        self.visible = false;
        if fire {
            Some(vm)
        } else {
            None
        }
    }
}

} // verus!
