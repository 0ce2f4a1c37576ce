//! VM lifecycle decisions: the registry, the QEMU install and the table of
//! running VMs. Creating disks, spawning and signalling processes and
//! saving the registry are left to the caller, which performs them as
//! these functions direct and reports back.

use vstd::prelude::*;
use crate::paths::{exists_answer, probe_exists};
use crate::qemu::{build_qemu_args, cdrom_of, chosen_binary, parent_of, qemu_args_of, sibling_of, QemuBinary, QemuError};
use crate::text::views;
use crate::text::{concat2, str_eq, to_owned_string};
use crate::vm_config::{first_vm, has_vm, vm_disk_path, vm_disk_path_of, vms_without, AppConfig, VmConfig};

verus! {

/// Errors of VM lifecycle operations.
#[derive(Debug)]
pub enum VmError {
    NotFound(String),
    QemuError(QemuError),
    DiskError(String),
    IoError(String),
}

/// What to run to start a VM: the QEMU binary and its arguments.
#[derive(Debug)]
pub struct LaunchPlan {
    pub binary: String,
    pub args: Vec<String>,
}

/// High-level VM manager: the registry, the QEMU install, and the process
/// ids of the VMs it started (one per VM id).
pub struct VmManager {
    /// Persisted application config (VM registry + paths).
    pub config: AppConfig,
    /// Detected QEMU binary.
    pub qemu: QemuBinary,
    running: Vec<(String, u32)>,
}

/// The view of the running table: (VM id, process id) pairs.
pub open spec fn running_view(r: Seq<(String, u32)>) -> Seq<(Seq<char>, u32)> {
    r.map_values(|p: (String, u32)| (p.0@, p.1))
}

/// No VM id appears twice in the running table.
pub open spec fn unique_ids(r: Seq<(Seq<char>, u32)>) -> bool {
    forall|i: int, j: int| 0 <= i < r.len() && 0 <= j < r.len() && i != j ==> r[i].0 != r[j].0
}

/// The VM `id` is in the running table.
pub open spec fn runs(r: Seq<(Seq<char>, u32)>, id: Seq<char>) -> bool {
    exists|i: int| 0 <= i < r.len() && r[i].0 == id
}

/// The process id recorded for VM `id`, if any.
pub open spec fn pid_in(r: Seq<(Seq<char>, u32)>, id: Seq<char>) -> Option<u32> {
    if runs(r, id) {
        let i = choose|i: int| 0 <= i < r.len() && r[i].0 == id;
        Some(r[i].1)
    } else {
        None
    }
}

/// The table after recording that VM `id` runs as process `pid`.
pub open spec fn with_started(r: Seq<(Seq<char>, u32)>, id: Seq<char>, pid: u32) -> Seq<(Seq<char>, u32)> {
    if runs(r, id) {
        let i = choose|i: int| 0 <= i < r.len() && r[i].0 == id;
        r.update(i, (id, pid))
    } else {
        r.push((id, pid))
    }
}

/// The entries not naming process `pid`.
pub open spec fn other_pid(pid: u32) -> spec_fn((Seq<char>, u32)) -> bool {
    |e: (Seq<char>, u32)| e.1 != pid
}

/// The entries not naming VM `id`.
pub open spec fn other_vm(id: Seq<char>) -> spec_fn((Seq<char>, u32)) -> bool {
    |e: (Seq<char>, u32)| e.0 != id
}

/// `plan` launches `vm` with disk image `disk`: its command line for some
/// answer of the ISO probe, and the QEMU binary for its architecture for
/// some answer of the sibling-binary probe.
pub open spec fn plan_for(plan: LaunchPlan, vm: VmConfig, qemu_path: Seq<char>, disk: Seq<char>, kvm: bool) -> bool {
    &&& exists|iso_file: bool|
        #![auto]
        views(plan.args@) == qemu_args_of(vm.ram_mb, vm.cpu_cores, cdrom_of(vm.iso_path@, iso_file), disk, false, kvm)
    &&& exists|sibling_present: bool|
        #![auto]
        plan.binary@ == chosen_binary(sibling_of(parent_of(qemu_path), vm.architecture@), sibling_present, vm.architecture@)
}

/// `res` is the start outcome for the disk probe's answer `disk_exists`:
/// the plan when the disk image exists, the disk-missing error otherwise.
pub open spec fn start_outcome_is(
    res: Result<LaunchPlan, VmError>,
    vm_id: Seq<char>,
    disk_path: Seq<char>,
    disk_exists: bool,
    plan: LaunchPlan,
) -> bool {
    if disk_exists {
        res == Ok::<LaunchPlan, VmError>(plan)
    } else {
        res matches Err(VmError::IoError(m)) && m@ == disk_missing_message(vm_id, disk_path)
    }
}

/// The start of VM `vm_id` once its disk image at `disk_path` was probed:
/// `plan` when the image exists, `IoError` with the disk-missing message
/// otherwise.
pub fn start_outcome(vm_id: &str, disk_path: &str, disk_exists: bool, plan: LaunchPlan) -> (res: Result<LaunchPlan, VmError>)
    ensures
        start_outcome_is(res, vm_id@, disk_path@, disk_exists, plan),
{
    if disk_exists {
        Ok(plan)
    } else {
        let mut msg = concat2("disk image missing for VM ", vm_id);
        msg.append(": ");
        msg.append(disk_path);
        Err(VmError::IoError(msg))
    }
}

/// The message of the error for a VM whose disk image is missing.
pub open spec fn disk_missing_message(vm_id: Seq<char>, disk: Seq<char>) -> Seq<char> {
    "disk image missing for VM "@ + vm_id + ": "@ + disk
}

proof fn lemma_unique_index(r: Seq<(Seq<char>, u32)>, id: Seq<char>, i: int, k: int)
    requires
        unique_ids(r),
        0 <= i < r.len(),
        0 <= k < r.len(),
        r[i].0 == id,
        r[k].0 == id,
    ensures
        i == k,
{
}

proof fn lemma_filter_unique(r: Seq<(Seq<char>, u32)>, p: spec_fn((Seq<char>, u32)) -> bool)
    requires
        unique_ids(r),
    ensures
        unique_ids(r.filter(p)),
    decreases r.len(),
{
    reveal_with_fuel(Seq::<_>::filter, 1);
    if r.len() > 0 {
        let d = r.drop_last();
        assert forall|i: int, j: int| 0 <= i < d.len() && 0 <= j < d.len() && i != j implies d[i].0 != d[j].0 by {
            assert(d[i] == r[i] && d[j] == r[j]);
        }
        lemma_filter_unique(d, p);
        broadcast use vstd::seq_lib::group_filter_ensures;
        let f = d.filter(p);
        if p(r.last()) {
            let g = f.push(r.last());
            assert forall|i: int, j: int| 0 <= i < g.len() && 0 <= j < g.len() && i != j implies g[i].0 != g[j].0 by {
                if i == f.len() || j == f.len() {
                    let k = if i == f.len() { j } else { i };
                    assert(f.contains(f[k]));
                    d.lemma_filter_contains_rev(p, f[k]);
                    let m = choose|m: int| 0 <= m < d.len() && d[m] == f[k];
                    assert(r[m] == d[m]);
                    assert(m != r.len() - 1);
                }
            }
        }
    }
}

impl VmManager {
    /// The registry.
    pub closed spec fn config_view(&self) -> AppConfig {
        self.config
    }

    /// The QEMU install.
    pub closed spec fn qemu_view(&self) -> QemuBinary {
        self.qemu
    }

    /// The running table as (VM id, process id) pairs.
    pub closed spec fn running_spec(&self) -> Seq<(Seq<char>, u32)> {
        running_view(self.running@)
    }

    /// The manager's internal consistency: one process id per VM id.
    pub open spec fn wf(&self) -> bool {
        unique_ids(self.running_spec())
    }

    /// A manager for `config` using the QEMU install `qemu`, with no VM
    /// running.
    pub fn new(config: AppConfig, qemu: QemuBinary) -> (res: Self)
        ensures
            res.wf(),
            res.config_view() == config,
            res.qemu_view() == qemu,
            res.running_spec() == Seq::<(Seq<char>, u32)>::empty(),
    {
        let m = VmManager { config, qemu, running: Vec::new() };
        assert(m.running_spec() =~= Seq::<(Seq<char>, u32)>::empty());
        m
    }

    /// The qcow2 disk image of VM `vm_id` for the user whose home directory
    /// is `home`.
    pub fn disk_path_for(home: &str, vm_id: &str) -> (res: String)
        ensures
            res@ == vm_disk_path_of(home@, vm_id@),
    {
        vm_disk_path(home, vm_id)
    }

    /// Registers `vm` and returns the path of its qcow2 disk image under
    /// `home`. The caller creates that image before and saves the registry
    /// after.
    pub fn create_vm(&mut self, vm: VmConfig, home: &str) -> (res: String)
        requires
            old(self).wf(),
        ensures
            final(self).wf(),
            res@ == vm_disk_path_of(home@, vm.id@),
            final(self).config_view().vms@ == old(self).config_view().vms@.push(vm),
            final(self).config_view().qemu_path == old(self).config_view().qemu_path,
            final(self).config_view().default_iso_dir == old(self).config_view().default_iso_dir,
            final(self).qemu_view() == old(self).qemu_view(),
            final(self).running_spec() == old(self).running_spec(),
    {
        let disk_path = Self::disk_path_for(home, vm.id.as_str());
        self.config.add_vm(vm);
        disk_path
    }

    fn running_index(&self, vm_id: &str) -> (res: Option<usize>)
        ensures
            match res {
                Some(i) => i < self.running_spec().len() && self.running_spec()[i as int].0 == vm_id@,
                None => !runs(self.running_spec(), vm_id@),
            },
    {
        let mut i: usize = 0;
        while i < self.running.len()
            invariant
                i <= self.running@.len(),
                forall|j: int| 0 <= j < i ==> self.running_spec()[j].0 != vm_id@,
            decreases self.running@.len() - i,
        {
            if str_eq(self.running[i].0.as_str(), vm_id) {
                return Some(i);
            }
            i = i + 1;
        }
        None
    }

    /// True when VM `vm_id` was started and not stopped since.
    pub fn is_running(&self, vm_id: &str) -> (res: bool)
        ensures
            res == runs(self.running_spec(), vm_id@),
    {
        self.running_index(vm_id).is_some()
    }

    /// The process id of VM `vm_id`, when it runs.
    pub fn running_pid(&self, vm_id: &str) -> (res: Option<u32>)
        requires
            self.wf(),
        ensures
            res == pid_in(self.running_spec(), vm_id@),
    {
        match self.running_index(vm_id) {
            Some(i) => {
                proof {
                    let r = self.running_spec();
                    let k = choose|k: int| 0 <= k < r.len() && r[k].0 == vm_id@;
                    lemma_unique_index(r, vm_id@, i as int, k);
                }
                Some(self.running[i].1)
            },
            None => None,
        }
    }

    /// A copy of the running table (VM id, process id).
    pub fn running_vms(&self) -> (res: Vec<(String, u32)>)
        ensures
            running_view(res@) == self.running_spec(),
    {
        let mut out: Vec<(String, u32)> = Vec::new();
        let mut i: usize = 0;
        while i < self.running.len()
            invariant
                i <= self.running@.len(),
                out@.len() == i,
                running_view(out@) == self.running_spec().take(i as int),
            decreases self.running@.len() - i,
        {
            let id = self.running[i].0.clone();
            let pid = self.running[i].1;
            let ghost prev = out@;
            out.push((id, pid));
            proof {
                assert(out@ == prev.push((id, pid)));
                assert(id@ == self.running@[i as int].0@);
                let a = running_view(out@);
                let b = self.running_spec().take(i as int + 1);
                assert(a.len() == b.len());
                assert forall|k: int| 0 <= k < a.len() implies a[k] == b[k] by {
                    if k < i {
                        assert(a[k] == running_view(prev)[k]);
                    } else {
                        assert(a[k] == (out@[k].0@, out@[k].1));
                    }
                }
                assert(a =~= b);
            }
            i = i + 1;
        }
        proof {
            assert(self.running_spec().take(self.running@.len() as int) =~= self.running_spec());
        }
        out
    }

    /// What to run to start the registered VM `vm_id`: `NotFound` when no
    /// VM has that id; otherwise its launch plan (the QEMU binary for its
    /// architecture and its command line, with a GTK display) goes through
    /// `start_outcome` with whether its disk image exists.
    pub fn start_vm(&self, vm_id: &str, home: &str, kvm: bool) -> (res: Result<LaunchPlan, VmError>)
        ensures
            !has_vm(self.config_view().vms@, vm_id@) ==> (res matches Err(VmError::NotFound(id)) && id@ == vm_id@),
            has_vm(self.config_view().vms@, vm_id@) ==> exists|i: int|
                #![trigger self.config_view().vms@[i]]
                first_vm(self.config_view().vms@, vm_id@, i) && exists|disk_exists: bool, plan: LaunchPlan|
                    #![trigger start_outcome_is(res, vm_id@, vm_disk_path_of(home@, vm_id@), disk_exists, plan)]
                    plan_for(
                        plan,
                        self.config_view().vms@[i],
                        self.qemu_view().path@,
                        vm_disk_path_of(home@, vm_id@),
                        kvm,
                    ) && start_outcome_is(res, vm_id@, vm_disk_path_of(home@, vm_id@), disk_exists, plan),
            has_vm(self.config_view().vms@, vm_id@) ==> exists|disk_exists: bool|
                #[trigger] exists_answer(vm_disk_path_of(home@, vm_id@), disk_exists)
                && (disk_exists ==> res is Ok)
                && (!disk_exists ==> (res matches Err(VmError::IoError(m))
                    && m@ == disk_missing_message(vm_id@, vm_disk_path_of(home@, vm_id@)))),
    {
        let vm = match self.config.get_vm(vm_id) {
            Some(v) => v,
            None => {
                return Err(VmError::NotFound(to_owned_string(vm_id)));
            },
        };
        let disk_path = Self::disk_path_for(home, vm_id);
        let disk_exists = probe_exists(disk_path.as_str());
        let args = build_qemu_args(vm, disk_path.as_str(), kvm);
        let binary = self.qemu.for_arch(vm.architecture.as_str());
        let plan = LaunchPlan { binary, args };
        let ghost p = plan;
        let res = start_outcome(vm_id, disk_path.as_str(), disk_exists, plan);
        assert(start_outcome_is(res, vm_id@, vm_disk_path_of(home@, vm_id@), disk_exists, p));
        res
    }

    /// Records that VM `vm_id` runs as process `pid` (replacing any earlier
    /// record for it).
    pub fn record_start(&mut self, vm_id: &str, pid: u32)
        requires
            old(self).wf(),
        ensures
            final(self).wf(),
            final(self).running_spec() == with_started(old(self).running_spec(), vm_id@, pid),
            final(self).config_view() == old(self).config_view(),
            final(self).qemu_view() == old(self).qemu_view(),
    {
        let ghost r = self.running_spec();
        match self.running_index(vm_id) {
            Some(i) => {
                proof {
                    let k = choose|k: int| 0 <= k < r.len() && r[k].0 == vm_id@;
                    lemma_unique_index(r, vm_id@, i as int, k);
                }
                self.running.set(i, (to_owned_string(vm_id), pid));
                proof {
                    assert(self.running_spec() =~= r.update(i as int, (vm_id@, pid)));
                }
            },
            None => {
                self.running.push((to_owned_string(vm_id), pid));
                proof {
                    assert(self.running_spec() =~= r.push((vm_id@, pid)));
                }
            },
        }
    }

    /// Forgets the VMs recorded as process `pid` (after it was signalled).
    pub fn record_stop(&mut self, pid: u32)
        requires
            old(self).wf(),
        ensures
            final(self).wf(),
            final(self).running_spec() == old(self).running_spec().filter(other_pid(pid)),
            final(self).config_view() == old(self).config_view(),
            final(self).qemu_view() == old(self).qemu_view(),
    {
        let ghost r = self.running_spec();
        let mut kept: Vec<(String, u32)> = Vec::new();
        let mut rest: Vec<(String, u32)> = Vec::new();
        std::mem::swap(&mut rest, &mut self.running);
        let ghost orig = rest@;
        let n = rest.len();
        let mut i: usize = 0;
        while i < n
            invariant
                n == orig.len(),
                r == running_view(orig),
                i <= n,
                rest@ == orig.skip(i as int),
                running_view(kept@) == r.take(i as int).filter(other_pid(pid)),
            decreases n - i,
        {
            let e = rest.remove(0);
            proof {
                assert(rest@ =~= orig.skip(i as int + 1));
                let t1 = r.take(i as int + 1);
                assert(t1.drop_last() =~= r.take(i as int));
                assert(t1.last() == (e.0@, e.1));
                assert(t1.filter(other_pid(pid)) == if other_pid(pid)(t1.last()) {
                    t1.drop_last().filter(other_pid(pid)).push(t1.last())
                } else {
                    t1.drop_last().filter(other_pid(pid))
                }) by {
                    reveal_with_fuel(Seq::<_>::filter, 1);
                }
            }
            if e.1 != pid {
                let ghost k0 = kept@;
                kept.push(e);
                proof {
                    assert(running_view(kept@) =~= running_view(k0).push((e.0@, e.1)));
                }
            }
            i = i + 1;
        }
        proof {
            assert(r.take(n as int) =~= r);
            lemma_filter_unique(r, other_pid(pid));
        }
        self.running = kept;
    }

    /// Deregisters VM `vm_id`: `NotFound` when no VM has that id; otherwise
    /// it leaves the registry and the running table.
    pub fn delete_vm(&mut self, vm_id: &str) -> (res: Result<(), VmError>)
        requires
            old(self).wf(),
        ensures
            final(self).wf(),
            final(self).qemu_view() == old(self).qemu_view(),
            final(self).config_view().vms@ == vms_without(old(self).config_view().vms@, vm_id@),
            final(self).config_view().qemu_path == old(self).config_view().qemu_path,
            final(self).config_view().default_iso_dir == old(self).config_view().default_iso_dir,
            has_vm(old(self).config_view().vms@, vm_id@) ==> res is Ok && final(self).running_spec()
                == old(self).running_spec().filter(other_vm(vm_id@)),
            !has_vm(old(self).config_view().vms@, vm_id@) ==> (res matches Err(VmError::NotFound(id)) && id@
                == vm_id@) && final(self).running_spec() == old(self).running_spec(),
    {
        if !self.config.remove_vm(vm_id) {
            return Err(VmError::NotFound(to_owned_string(vm_id)));
        }
        let ghost r = self.running_spec();
        match self.running_index(vm_id) {
            Some(i) => {
                let ghost before = self.running@;
                self.running.remove(i);
                proof {
                    assert(self.running_spec() =~= r.remove(i as int));
                    assert(r.filter(other_vm(vm_id@)) =~= r.remove(i as int)) by {
                        lemma_filter_remove_unique(r, vm_id@, i as int);
                    }
                    lemma_filter_unique(r, other_vm(vm_id@));
                }
            },
            None => {
                proof {
                    lemma_filter_none(r, other_vm(vm_id@));
                }
            },
        }
        Ok(())
    }
}

proof fn lemma_filter_none(r: Seq<(Seq<char>, u32)>, p: spec_fn((Seq<char>, u32)) -> bool)
    requires
        forall|i: int| 0 <= i < r.len() ==> p(#[trigger] r[i]),
    ensures
        r.filter(p) == r,
    decreases r.len(),
{
    reveal_with_fuel(Seq::<_>::filter, 1);
    if r.len() > 0 {
        let d = r.drop_last();
        assert forall|i: int| 0 <= i < d.len() implies p(#[trigger] d[i]) by {
            assert(d[i] == r[i]);
        }
        lemma_filter_none(d, p);
        assert(p(r.last()));
        assert(d.push(r.last()) =~= r);
    } else {
        assert(r.filter(p) =~= r);
    }
}

proof fn lemma_filter_remove_unique(r: Seq<(Seq<char>, u32)>, id: Seq<char>, i: int)
    requires
        unique_ids(r),
        0 <= i < r.len(),
        r[i].0 == id,
    ensures
        r.filter(other_vm(id)) == r.remove(i),
    decreases r.len(),
{
    reveal_with_fuel(Seq::<_>::filter, 1);
    let d = r.drop_last();
    assert forall|a: int, b: int| 0 <= a < d.len() && 0 <= b < d.len() && a != b implies d[a].0 != d[b].0 by {
        assert(d[a] == r[a] && d[b] == r[b]);
    }
    if i == r.len() - 1 {
        assert forall|k: int| 0 <= k < d.len() implies other_vm(id)(#[trigger] d[k]) by {
            assert(d[k] == r[k]);
            assert(k != i);
        }
        lemma_filter_none(d, other_vm(id));
        assert(r.remove(i) =~= d);
    } else {
        lemma_filter_remove_unique(d, id, i);
        assert(r.last().0 != id) by {
            assert(r[r.len() - 1] == r.last());
        }
        assert(r.remove(i) =~= d.remove(i).push(r.last()));
    }
}

/// After starting VM `id` as process `pid`, the table reports it running
/// under that process id.
pub proof fn lemma_started_is_running(r: Seq<(Seq<char>, u32)>, id: Seq<char>, pid: u32)
    requires
        unique_ids(r),
    ensures
        runs(with_started(r, id, pid), id),
        pid_in(with_started(r, id, pid), id) == Some(pid),
        unique_ids(with_started(r, id, pid)),
{
    let s = with_started(r, id, pid);
    if runs(r, id) {
        let i = choose|i: int| 0 <= i < r.len() && r[i].0 == id;
        assert(s[i].0 == id);
        assert forall|a: int, b: int| 0 <= a < s.len() && 0 <= b < s.len() && a != b implies s[a].0 != s[b].0 by {
            if a != i && b != i {
                assert(s[a] == r[a] && s[b] == r[b]);
            } else if a == i {
                assert(s[b] == r[b]);
            } else {
                assert(s[a] == r[a]);
            }
        }
        let k = choose|k: int| 0 <= k < s.len() && s[k].0 == id;
        assert(k == i);
    } else {
        let n = r.len() as int;
        assert(s[n].0 == id);
        assert forall|a: int, b: int| 0 <= a < s.len() && 0 <= b < s.len() && a != b implies s[a].0 != s[b].0 by {
            if a < n && b < n {
                assert(s[a] == r[a] && s[b] == r[b]);
            } else if a == n {
                assert(s[b] == r[b]);
            } else {
                assert(s[a] == r[a]);
            }
        }
        let k = choose|k: int| 0 <= k < s.len() && s[k].0 == id;
        if k < n {
            assert(s[k] == r[k]);
        }
    }
}

/// After a stop of process `pid`, no VM is recorded under it.
pub proof fn lemma_stopped_pid_absent(r: Seq<(Seq<char>, u32)>, pid: u32)
    ensures
        forall|i: int| 0 <= i < r.filter(other_pid(pid)).len() ==> #[trigger] r.filter(other_pid(pid))[i].1 != pid,
{
    broadcast use vstd::seq_lib::group_filter_ensures;
    let f = r.filter(other_pid(pid));
    assert forall|i: int| 0 <= i < f.len() implies #[trigger] f[i].1 != pid by {
        assert(other_pid(pid)(f[i]));
    }
}

/// After deleting VM `id`, it no longer runs.
pub proof fn lemma_deleted_not_running(r: Seq<(Seq<char>, u32)>, id: Seq<char>)
    ensures
        !runs(r.filter(other_vm(id)), id),
{
    broadcast use vstd::seq_lib::group_filter_ensures;
    let f = r.filter(other_vm(id));
    if runs(f, id) {
        let i = choose|i: int| 0 <= i < f.len() && f[i].0 == id;
        assert(other_vm(id)(f[i]));
    }
}

} // verus!
