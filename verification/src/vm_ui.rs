//! The Astra VM window as state: the QEMU pill of the header, the VM list of
//! the sidebar, the detail pane, and the selection rules of the window.
//! Widgets render the texts and flags kept here.

use vstd::prelude::*;
use crate::stats::{format_uptime, uptime_text};
use crate::text::{dec, opt_str_view, push_decimal, str_eq, to_owned_string};
use crate::vm_config::{
    first_vm, has_vm, vms_without, AppConfig, css_class_of, emoji_of, eq_ignore_ascii_case, family_of, os_haystack, str_eq_ignore_ascii_case,
    OsFamily, VmConfig,
};

verus! {

// ---------------------------------------------------------------------
// Texts
// ---------------------------------------------------------------------

/// The status badge of a VM: `● En cours` when it runs, `● Arrêtée`
/// otherwise.
pub open spec fn status_text(running: bool) -> Seq<char> {
    if running {
        "\u{25CF} En cours"@
    } else {
        "\u{25CF} Arr\u{EA}t\u{E9}e"@
    }
}

/// The CSS class of the status badge.
pub open spec fn status_class_text(running: bool) -> Seq<char> {
    if running {
        "status-running"@
    } else {
        "status-stopped"@
    }
}

/// The label of the start button: `⏹ Arrêter` while the VM runs,
/// `▶ Démarrer` otherwise.
pub open spec fn start_text(running: bool) -> Seq<char> {
    if running {
        "\u{23F9} Arr\u{EA}ter"@
    } else {
        "\u{25B6} D\u{E9}marrer"@
    }
}

/// The QEMU pill of the header.
pub open spec fn qemu_text(detected: bool) -> Seq<char> {
    if detected {
        "\u{1F427} QEMU Portable d\u{E9}tect\u{E9}"@
    } else {
        "\u{26A0} QEMU manquant"@
    }
}

/// The CSS class of the QEMU pill.
pub open spec fn qemu_class_text(detected: bool) -> Seq<char> {
    if detected {
        "qemu-found"@
    } else {
        "qemu-missing"@
    }
}

/// The 3D acceleration row: on for `x86_64` (any ASCII case), off
/// otherwise.
pub open spec fn accel_text(on: bool) -> Seq<char> {
    if on {
        "Activ\u{E9}e"@
    } else {
        "D\u{E9}sactiv\u{E9}e"@
    }
}

/// The markup shown in the sidebar when no VM is configured.
pub open spec fn empty_list_markup() -> Seq<char> {
    "<span alpha=\"55%\">Aucune VM configur\u{E9}e.\nCliquez sur \u{201C}+ Nouvelle VM\u{201D}.</span>"@
}

/// The badge text for a running state.
pub fn status_label(running: bool) -> (res: &'static str)
    ensures
        res@ == status_text(running),
{
    if running {
        "\u{25CF} En cours"
    } else {
        "\u{25CF} Arr\u{EA}t\u{E9}e"
    }
}

/// The badge CSS class for a running state.
pub fn status_class(running: bool) -> (res: &'static str)
    ensures
        res@ == status_class_text(running),
{
    if running {
        "status-running"
    } else {
        "status-stopped"
    }
}

// ---------------------------------------------------------------------
// Header
// ---------------------------------------------------------------------

/// The header bar: its QEMU detection pill.
pub struct Header {
    qemu_detected: bool,
}

impl Header {
    /// Whether the pill reports QEMU as found.
    pub closed spec fn detected(&self) -> bool {
        self.qemu_detected
    }

    /// A header whose pill reports QEMU missing.
    pub fn new() -> (res: Header)
        ensures
            !res.detected(),
    {
        Header { qemu_detected: false }
    }

    /// Switches the pill between found and missing.
    pub fn set_qemu_detected(&mut self, detected: bool)
        ensures
            final(self).detected() == detected,
    {
        self.qemu_detected = detected;
    }

    /// The pill's text.
    pub fn qemu_label(&self) -> (res: &'static str)
        ensures
            res@ == qemu_text(self.detected()),
    {
        if self.qemu_detected {
            "\u{1F427} QEMU Portable d\u{E9}tect\u{E9}"
        } else {
            "\u{26A0} QEMU manquant"
        }
    }

    /// The pill's CSS class.
    pub fn qemu_class(&self) -> (res: &'static str)
        ensures
            res@ == qemu_class_text(self.detected()),
    {
        if self.qemu_detected {
            "qemu-found"
        } else {
            "qemu-missing"
        }
    }
}

// ---------------------------------------------------------------------
// Sidebar items
// ---------------------------------------------------------------------

/// One row of the VM list: the VM's id, name and OS family, whether it
/// runs, and whether it is the selected row.
pub struct VmItem {
    id: String,
    name: String,
    family: OsFamily,
    running: bool,
    active: bool,
}

impl View for VmItem {
    type V = (Seq<char>, bool, bool);

    /// (VM id, running, active).
    closed spec fn view(&self) -> (Seq<char>, bool, bool) {
        (self.id@, self.running, self.active)
    }
}

/// The OS family shown for a VM.
pub open spec fn vm_family(vm: VmConfig) -> OsFamily {
    family_of(vm.architecture@, os_haystack(vm.name@, vm.iso_path@))
}

/// `it` is the fresh row of `vm`: its id, name and family, stopped and not
/// selected.
pub open spec fn item_of(it: VmItem, vm: VmConfig) -> bool {
    &&& it@ == (vm.id@, false, false)
    &&& it.name_view() == vm.name@
    &&& it.family_view() == vm_family(vm)
}

/// `a` and `b` show the same VM (id, name and family).
pub open spec fn same_vm(a: VmItem, b: VmItem) -> bool {
    a@.0 == b@.0 && a.name_view() == b.name_view() && a.family_view() == b.family_view()
}

impl VmItem {
    /// The VM name shown.
    pub closed spec fn name_view(&self) -> Seq<char> {
        self.name@
    }

    /// The OS family shown.
    pub closed spec fn family_view(&self) -> OsFamily {
        self.family
    }

    /// The row of `vm`, stopped and not selected.
    pub fn new(vm: &VmConfig) -> (res: VmItem)
        ensures
            item_of(res, *vm),
    {
        VmItem {
            id: vm.id.clone(),
            name: vm.name.clone(),
            family: vm.os_family(),
            running: false,
            active: false,
        }
    }

    /// Sets the running indicator.
    pub fn set_running(&mut self, running: bool)
        ensures
            final(self)@ == (old(self)@.0, running, old(self)@.2),
            same_vm(*final(self), *old(self)),
    {
        self.running = running;
    }

    /// Marks the row as the selected one, or not.
    pub fn set_active(&mut self, active: bool)
        ensures
            final(self)@ == (old(self)@.0, old(self)@.1, active),
            same_vm(*final(self), *old(self)),
    {
        self.active = active;
    }

    /// The VM id of the row.
    pub fn vm_id(&self) -> (res: &str)
        ensures
            res@ == self@.0,
    {
        self.id.as_str()
    }

    /// The VM name of the row.
    pub fn name(&self) -> (res: &str)
        ensures
            res@ == self.name_view(),
    {
        self.name.as_str()
    }

    /// The icon emoji of the row.
    pub fn icon(&self) -> (res: &'static str)
        ensures
            res@ == emoji_of(self.family_view()),
    {
        self.family.emoji()
    }

    /// The icon CSS class of the row.
    pub fn icon_class(&self) -> (res: &'static str)
        ensures
            res@ == css_class_of(self.family_view()),
    {
        self.family.css_class()
    }

    /// Whether the VM runs.
    pub fn is_running(&self) -> (res: bool)
        ensures
            res == self@.1,
    {
        self.running
    }

    /// Whether the row is the selected one.
    pub fn is_active(&self) -> (res: bool)
        ensures
            res == self@.2,
    {
        self.active
    }

    /// The status text of the row.
    pub fn status_label(&self) -> (res: &'static str)
        ensures
            res@ == status_text(self@.1),
    {
        status_label(self.running)
    }
}

// ---------------------------------------------------------------------
// Sidebar
// ---------------------------------------------------------------------

/// `i` is the first row of `items` for VM `id`.
pub open spec fn first_item(items: Seq<VmItem>, id: Seq<char>, i: int) -> bool {
    0 <= i < items.len() && items[i]@.0 == id && forall|j: int| 0 <= j < i ==> items[j]@.0 != id
}

/// `after` is `before` with exactly the rows of VM `id` marked active.
pub open spec fn rows_selected(before: Seq<VmItem>, after: Seq<VmItem>, id: Seq<char>) -> bool {
    &&& after.len() == before.len()
    &&& forall|i: int|
        0 <= i < before.len() ==> #[trigger] after[i]@ == (before[i]@.0, before[i]@.1, before[i]@.0 == id) && same_vm(
            after[i],
            before[i],
        )
}

/// `after` is `before` with the running indicator of the first row of VM
/// `id` set to `running`.
pub open spec fn rows_running(before: Seq<VmItem>, after: Seq<VmItem>, id: Seq<char>, running: bool) -> bool {
    &&& after.len() == before.len()
    &&& forall|i: int|
        0 <= i < before.len() ==> if first_item(before, id, i) {
            #[trigger] after[i]@ == (id, running, before[i]@.2) && same_vm(after[i], before[i])
        } else {
            after[i] == before[i]
        }
}

/// The VM list: one row per VM, and the id of the selected VM.
pub struct Sidebar {
    items: Vec<VmItem>,
    selected_id: Option<String>,
}

impl Sidebar {
    /// The rows, in order.
    pub closed spec fn items_spec(&self) -> Seq<VmItem> {
        self.items@
    }

    /// The id of the selected VM.
    pub closed spec fn selected(&self) -> Option<Seq<char>> {
        opt_str_view(self.selected_id)
    }

    /// An empty list with nothing selected.
    pub fn new() -> (res: Sidebar)
        ensures
            res.items_spec().len() == 0,
            res.selected() is None,
    {
        Sidebar { items: Vec::new(), selected_id: None }
    }

    /// Replaces the rows by fresh rows of `vms`, in order, and clears the
    /// selection.
    pub fn set_vms(&mut self, vms: &[VmConfig])
        ensures
            final(self).items_spec().len() == vms@.len(),
            forall|i: int| 0 <= i < vms@.len() ==> item_of(#[trigger] final(self).items_spec()[i], vms@[i]),
            final(self).selected() is None,
    {
        let mut items: Vec<VmItem> = Vec::new();
        let mut i: usize = 0;
        while i < vms.len()
            invariant
                i <= vms@.len(),
                items@.len() == i,
                forall|j: int| 0 <= j < i ==> item_of(#[trigger] items@[j], vms@[j]),
            decreases vms@.len() - i,
        {
            let it = VmItem::new(&vms[i]);
            items.push(it);
            i = i + 1;
        }
        self.items = items;
        self.selected_id = None;
    }

    /// Selects VM `id`: exactly the rows of that VM are marked active.
    pub fn select_vm(&mut self, id: &str)
        ensures
            final(self).selected() == Some(id@),
            rows_selected(old(self).items_spec(), final(self).items_spec(), id@),
    {
        self.selected_id = Some(to_owned_string(id));
        let ghost before = self.items@;
        let ghost sel = self.selected_id;
        let mut i: usize = 0;
        while i < self.items.len()
            invariant
                self.selected_id == sel,
                opt_str_view(sel) == Some(id@),
                self.items@.len() == before.len(),
                i <= before.len(),
                forall|j: int|
                    0 <= j < i ==> #[trigger] self.items@[j]@ == (before[j]@.0, before[j]@.1, before[j]@.0 == id@)
                        && same_vm(self.items@[j], before[j]),
                forall|j: int| i <= j < before.len() ==> #[trigger] self.items@[j] == before[j],
            decreases before.len() - i,
        {
            let m = str_eq(self.items[i].vm_id(), id);
            self.items[i].set_active(m);
            i = i + 1;
        }
    }

    /// Sets the running indicator of the first row of VM `id`; no row
    /// changes when none shows that VM.
    pub fn set_vm_running(&mut self, id: &str, running: bool)
        ensures
            final(self).selected() == old(self).selected(),
            rows_running(old(self).items_spec(), final(self).items_spec(), id@, running),
    {
        let ghost before = self.items@;
        let mut i: usize = 0;
        while i < self.items.len()
            invariant
                self.items@ == before,
                before == old(self).items@,
                self.selected_id == old(self).selected_id,
                i <= before.len(),
                forall|j: int| 0 <= j < i ==> before[j]@.0 != id@,
            decreases before.len() - i,
        {
            if str_eq(self.items[i].vm_id(), id) {
                self.items[i].set_running(running);
                proof {
                    assert forall|k: int| 0 <= k < before.len() && k != i implies !first_item(before, id@, k) by {
                        if k > i {
                            assert(before[i as int]@.0 == id@);
                        }
                    }
                    assert(first_item(before, id@, i as int));
                }
                return;
            }
            i = i + 1;
        }
    }

    /// The rows, in order.
    pub fn items(&self) -> (res: &Vec<VmItem>)
        ensures
            res@ == self.items_spec(),
    {
        &self.items
    }

    /// The id of the selected VM.
    pub fn selected_id(&self) -> (res: Option<&String>)
        ensures
            match res {
                Some(s) => self.selected() == Some(s@),
                None => self.selected() is None,
            },
    {
        match &self.selected_id {
            Some(s) => Some(s),
            None => None,
        }
    }

    /// The placeholder markup, shown only while the list has no row.
    pub fn placeholder(&self) -> (res: Option<&'static str>)
        ensures
            match res {
                Some(m) => self.items_spec().len() == 0 && m@ == empty_list_markup(),
                None => self.items_spec().len() > 0,
            },
    {
        if self.items.len() == 0 {
            Some("<span alpha=\"55%\">Aucune VM configur\u{E9}e.\nCliquez sur \u{201C}+ Nouvelle VM\u{201D}.</span>")
        } else {
            None
        }
    }
}

// ---------------------------------------------------------------------
// Detail pane
// ---------------------------------------------------------------------

/// The texts of the detail header and configuration grid of one VM.
#[derive(Debug)]
pub struct VmDetail {
    pub icon: &'static str,
    pub icon_class: &'static str,
    pub title: String,
    pub subtitle: String,
    pub arch: String,
    pub cpu: String,
    pub ram: String,
    pub disk: String,
    pub iso: String,
    pub accel_3d: &'static str,
}

/// The subtitle `{arch} • {cores} • {ram}`.
pub open spec fn subtitle_text(vm: VmConfig) -> Seq<char> {
    vm.architecture@ + " \u{2022} "@ + dec(vm.cpu_cores as nat) + " \u{2022} "@ + dec(vm.ram_mb as nat)
}

/// `d` holds the detail texts of `vm`: the family's icon and class, the
/// name as title, the subtitle, the architecture, `{n} cœurs`, `{n} Mo`,
/// `{n} Go`, the ISO path, and 3D acceleration on exactly for `x86_64`.
pub open spec fn detail_of(d: VmDetail, vm: VmConfig) -> bool {
    &&& d.icon@ == emoji_of(vm_family(vm))
    &&& d.icon_class@ == css_class_of(vm_family(vm))
    &&& d.title@ == vm.name@
    &&& d.subtitle@ == subtitle_text(vm)
    &&& d.arch@ == vm.architecture@
    &&& d.cpu@ == dec(vm.cpu_cores as nat) + " c\u{153}urs"@
    &&& d.ram@ == dec(vm.ram_mb as nat) + " Mo"@
    &&& d.disk@ == dec(vm.disk_gb as nat) + " Go"@
    &&& d.iso@ == vm.iso_path@
    &&& d.accel_3d@ == accel_text(eq_ignore_ascii_case(vm.architecture@, "x86_64"@))
}

/// `n` in decimal followed by `unit`.
fn number_with(n: u32, unit: &str) -> (res: String)
    ensures
        res@ == dec(n as nat) + unit@,
{
    let mut out = String::new();
    push_decimal(&mut out, n as u64);
    out.append(unit);
    out
}

/// The detail texts of `vm`.
pub fn vm_detail(vm: &VmConfig) -> (res: VmDetail)
    ensures
        detail_of(res, *vm),
{
    let family = vm.os_family();
    let mut subtitle = vm.architecture.clone();
    subtitle.append(" \u{2022} ");
    push_decimal(&mut subtitle, vm.cpu_cores as u64);
    subtitle.append(" \u{2022} ");
    push_decimal(&mut subtitle, vm.ram_mb as u64);
    let accel = str_eq_ignore_ascii_case(vm.architecture.as_str(), "x86_64");
    VmDetail {
        icon: family.emoji(),
        icon_class: family.css_class(),
        title: vm.name.clone(),
        subtitle,
        arch: vm.architecture.clone(),
        cpu: number_with(vm.cpu_cores, " c\u{153}urs"),
        ram: number_with(vm.ram_mb, " Mo"),
        disk: number_with(vm.disk_gb, " Go"),
        iso: vm.iso_path.clone(),
        accel_3d: if accel {
            "Activ\u{E9}e"
        } else {
            "D\u{E9}sactiv\u{E9}e"
        },
    }
}

/// The texts of the four stats cards.
#[derive(Debug)]
pub struct StatsLabels {
    pub cpu: String,
    pub ram: String,
    pub disk: String,
    pub uptime: String,
}

/// The action buttons of the detail pane.
#[derive(Clone, Copy, Debug, PartialEq, Eq, Structural)]
pub enum ActionButton {
    Start,
    Settings,
    Capture,
    Delete,
}

/// The detail pane: the VM shown (if any), whether it runs, and the texts
/// of its header and configuration grid.
pub struct MainArea {
    current_id: Option<String>,
    running: bool,
    detail: Option<VmDetail>,
}

impl MainArea {
    /// The id of the VM shown.
    pub closed spec fn current(&self) -> Option<Seq<char>> {
        opt_str_view(self.current_id)
    }

    /// Whether the VM shown runs.
    pub closed spec fn runs(&self) -> bool {
        self.running
    }

    /// The detail texts on display.
    pub closed spec fn shown(&self) -> Option<VmDetail> {
        self.detail
    }

    /// An empty pane: no VM shown, stopped.
    pub fn new() -> (res: MainArea)
        ensures
            res.current() is None,
            !res.runs(),
            res.shown() is None,
    {
        MainArea { current_id: None, running: false, detail: None }
    }

    /// Shows `vm`; the running state is kept.
    pub fn show_vm(&mut self, vm: &VmConfig)
        ensures
            final(self).current() == Some(vm.id@),
            final(self).runs() == old(self).runs(),
            final(self).shown() matches Some(d) && detail_of(d, *vm),
    {
        self.current_id = Some(vm.id.clone());
        self.detail = Some(vm_detail(vm));
    }

    /// Sets the running state; the VM shown is kept.
    pub fn set_running(&mut self, running: bool)
        ensures
            final(self).runs() == running,
            final(self).current() == old(self).current(),
            final(self).shown() == old(self).shown(),
    {
        self.running = running;
    }

    /// The stats card texts `{cpu} %`, `{ram} Mo`, `{disk} Mo/s` and the
    /// uptime; `None` while the VM is not running (the cards are hidden).
    pub fn update_stats(&self, cpu: u32, ram_mb: u32, disk_mbps: u32, uptime_sec: u64) -> (res: Option<StatsLabels>)
        ensures
            match res {
                Some(l) => {
                    &&& self.runs()
                    &&& l.cpu@ == dec(cpu as nat) + " %"@
                    &&& l.ram@ == dec(ram_mb as nat) + " Mo"@
                    &&& l.disk@ == dec(disk_mbps as nat) + " Mo/s"@
                    &&& l.uptime@ == uptime_text(uptime_sec as nat)
                },
                None => !self.runs(),
            },
    {
        if !self.running {
            return None;
        }
        Some(
            StatsLabels {
                cpu: number_with(cpu, " %"),
                ram: number_with(ram_mb, " Mo"),
                disk: number_with(disk_mbps, " Mo/s"),
                uptime: format_uptime(uptime_sec),
            },
        )
    }

    /// The id of the VM shown, which the action buttons act on.
    pub fn current_id(&self) -> (res: Option<&String>)
        ensures
            match res {
                Some(s) => self.current() == Some(s@),
                None => self.current() is None,
            },
    {
        match &self.current_id {
            Some(s) => Some(s),
            None => None,
        }
    }

    /// The detail texts on display.
    pub fn detail(&self) -> (res: Option<&VmDetail>)
        ensures
            match res {
                Some(d) => self.shown() == Some(*d),
                None => self.shown() is None,
            },
    {
        match &self.detail {
            Some(d) => Some(d),
            None => None,
        }
    }

    /// The header title: the VM's name, or `Aucune VM sélectionnée` before
    /// any VM is shown.
    pub fn title(&self) -> (res: String)
        ensures
            match self.shown() {
                Some(d) => res@ == d.title@,
                None => res@ == "Aucune VM s\u{E9}lectionn\u{E9}e"@,
            },
    {
        match &self.detail {
            Some(d) => d.title.clone(),
            None => to_owned_string("Aucune VM s\u{E9}lectionn\u{E9}e"),
        }
    }

    /// The header subtitle: the VM's summary, or `Sélectionnez une VM dans
    /// la liste.` before any VM is shown.
    pub fn subtitle(&self) -> (res: String)
        ensures
            match self.shown() {
                Some(d) => res@ == d.subtitle@,
                None => res@ == "S\u{E9}lectionnez une VM dans la liste."@,
            },
    {
        match &self.detail {
            Some(d) => d.subtitle.clone(),
            None => to_owned_string("S\u{E9}lectionnez une VM dans la liste."),
        }
    }

    /// The header icon and its CSS class: the VM's family, or the unknown
    /// family's before any VM is shown.
    pub fn icon(&self) -> (res: (&'static str, &'static str))
        ensures
            match self.shown() {
                Some(d) => res.0 == d.icon && res.1 == d.icon_class,
                None => res.0@ == emoji_of(OsFamily::Unknown) && res.1@ == css_class_of(OsFamily::Unknown),
            },
    {
        match &self.detail {
            Some(d) => (d.icon, d.icon_class),
            None => (OsFamily::Unknown.emoji(), OsFamily::Unknown.css_class()),
        }
    }

    /// The status badge text.
    pub fn status_label(&self) -> (res: &'static str)
        ensures
            res@ == status_text(self.runs()),
    {
        status_label(self.running)
    }

    /// The start button's label.
    pub fn start_label(&self) -> (res: &'static str)
        ensures
            res@ == start_text(self.runs()),
    {
        if self.running {
            "\u{23F9} Arr\u{EA}ter"
        } else {
            "\u{25B6} D\u{E9}marrer"
        }
    }

    /// Whether the start, settings and delete buttons respond: once a VM
    /// is shown.
    pub fn actions_enabled(&self) -> (res: bool)
        ensures
            res == self.current() is Some,
    {
        self.current_id.is_some()
    }

    /// Whether the capture button responds: while the VM runs.
    pub fn capture_enabled(&self) -> (res: bool)
        ensures
            res == self.runs(),
    {
        self.running
    }

    /// A click on `button`: the VM id its callback receives, or `None`
    /// when the click does nothing (the button is insensitive, or no VM is
    /// shown). Start, settings and delete respond once a VM is shown;
    /// capture also needs the VM running.
    pub fn press(&self, button: ActionButton) -> (res: Option<String>)
        ensures
            match self.current() {
                Some(id) => if button == ActionButton::Capture && !self.runs() {
                    res is None
                } else {
                    res matches Some(s) && s@ == id
                },
                None => res is None,
            },
    {
        match &self.current_id {
            Some(id) => {
                if button == ActionButton::Capture && !self.running {
                    None
                } else {
                    Some(id.clone())
                }
            },
            None => None,
        }
    }

    /// Whether the stats cards are visible: while the VM runs.
    pub fn stats_visible(&self) -> (res: bool)
        ensures
            res == self.runs(),
    {
        self.running
    }
}

// ---------------------------------------------------------------------
// The window
// ---------------------------------------------------------------------

/// The rows of `rows` are those of `vms`, in order, all stopped, and the
/// active ones are those of VM `sel`.
pub open spec fn rows_of(rows: Seq<VmItem>, vms: Seq<VmConfig>, sel: Option<Seq<char>>) -> bool {
    &&& rows.len() == vms.len()
    &&& forall|i: int|
        0 <= i < vms.len() ==> {
            &&& #[trigger] rows[i]@ == (vms[i].id@, false, sel == Some(vms[i].id@))
            &&& rows[i].name_view() == vms[i].name@
            &&& rows[i].family_view() == vm_family(vms[i])
        }
}

/// Selecting VM `id` in a freshly filled list marks exactly its rows.
proof fn lemma_rows_after_select(before: Seq<VmItem>, after: Seq<VmItem>, vms: Seq<VmConfig>, id: Seq<char>)
    requires
        rows_of(before, vms, None),
        rows_selected(before, after, id),
    ensures
        rows_of(after, vms, Some(id)),
{
    assert forall|i: int| 0 <= i < vms.len() implies #[trigger] after[i]@ == (vms[i].id@, false, Some(id) == Some(vms[i].id@))
        && after[i].name_view() == vms[i].name@ && after[i].family_view() == vm_family(vms[i]) by {
        assert(before[i]@ == (vms[i].id@, false, false));
        assert(same_vm(after[i], before[i]));
    }
}

/// The pane `m` shows the first VM of `vms` with id `id`.
pub open spec fn shows(m: MainArea, vms: Seq<VmConfig>, id: Seq<char>) -> bool {
    &&& m.current() == Some(id)
    &&& exists|i: int| #[trigger] first_vm(vms, id, i) && (m.shown() matches Some(d) && detail_of(d, vms[i]))
}

/// The Astra VM window: the registry, the selected VM, the VM list, the
/// detail pane and the header.
pub struct App {
    config: AppConfig,
    selected_vm: Option<String>,
    sidebar: Sidebar,
    main_area: MainArea,
    header: Header,
}

impl App {
    /// The registry the window shows.
    pub closed spec fn config_spec(&self) -> AppConfig {
        self.config
    }

    /// The id of the selected VM.
    pub closed spec fn selected(&self) -> Option<Seq<char>> {
        opt_str_view(self.selected_vm)
    }

    /// The VM list.
    pub closed spec fn sidebar_spec(&self) -> Sidebar {
        self.sidebar
    }

    /// The detail pane.
    pub closed spec fn main_spec(&self) -> MainArea {
        self.main_area
    }

    /// The header.
    pub closed spec fn header_spec(&self) -> Header {
        self.header
    }

    /// The window for `config`: the QEMU pill set from `qemu_detected`, the
    /// list filled from the registry, and its first VM, if any, selected
    /// and shown.
    pub fn new(config: AppConfig, qemu_detected: bool) -> (res: App)
        ensures
            res.config_spec() == config,
            res.header_spec().detected() == qemu_detected,
            config.vms@.len() == 0 ==> {
                &&& res.selected() is None
                &&& res.sidebar_spec().selected() is None
                &&& rows_of(res.sidebar_spec().items_spec(), config.vms@, None)
                &&& res.main_spec().current() is None
            },
            config.vms@.len() > 0 ==> {
                &&& res.selected() == Some(config.vms@[0].id@)
                &&& res.sidebar_spec().selected() == Some(config.vms@[0].id@)
                &&& rows_of(res.sidebar_spec().items_spec(), config.vms@, Some(config.vms@[0].id@))
                &&& shows(res.main_spec(), config.vms@, config.vms@[0].id@)
            },
            !res.main_spec().runs(),
    {
        let mut header = Header::new();
        header.set_qemu_detected(qemu_detected);
        let mut app = App { config, selected_vm: None, sidebar: Sidebar::new(), main_area: MainArea::new(), header };
        app.refresh_vm_list();
        if app.config.vms.len() > 0 {
            let first = app.config.vms[0].id.clone();
            let ghost rows = app.sidebar.items@;
            assert(has_vm(app.config.vms@, first@)) by {
                assert(app.config.vms@[0].id@ == first@);
            }
            app.select_vm(first.as_str());
            proof {
                lemma_rows_after_select(rows, app.sidebar.items@, app.config.vms@, first@);
            }
        }
        app
    }

    /// Rebuilds the VM list from the registry (every row stopped, nothing
    /// selected in the list).
    pub fn refresh_vm_list(&mut self)
        ensures
            rows_of(final(self).sidebar_spec().items_spec(), old(self).config_spec().vms@, None),
            final(self).sidebar_spec().selected() is None,
            final(self).config_spec() == old(self).config_spec(),
            final(self).selected() == old(self).selected(),
            final(self).main_spec() == old(self).main_spec(),
            final(self).header_spec() == old(self).header_spec(),
    {
        self.sidebar.set_vms(self.config.vms.as_slice());
    }

    /// Marks VM `vm_id` selected and shows it in the pane when the registry
    /// has it (the pane is left as it was otherwise).
    pub fn show_vm_details(&mut self, vm_id: &str)
        ensures
            final(self).selected() == Some(vm_id@),
            has_vm(old(self).config_spec().vms@, vm_id@) ==> shows(final(self).main_spec(), old(self).config_spec().vms@, vm_id@),
            !has_vm(old(self).config_spec().vms@, vm_id@) ==> final(self).main_spec() == old(self).main_spec(),
            final(self).main_spec().runs() == old(self).main_spec().runs(),
            final(self).config_spec() == old(self).config_spec(),
            final(self).sidebar_spec() == old(self).sidebar_spec(),
            final(self).header_spec() == old(self).header_spec(),
    {
        self.selected_vm = Some(to_owned_string(vm_id));
        match self.config.get_vm(vm_id) {
            Some(vm) => {
                self.main_area.show_vm(vm);
            },
            None => {},
        }
    }

    /// A click on the row of VM `vm_id`: the list marks it, and the window
    /// selects and shows it.
    pub fn select_vm(&mut self, vm_id: &str)
        ensures
            final(self).sidebar_spec().selected() == Some(vm_id@),
            rows_selected(old(self).sidebar_spec().items_spec(), final(self).sidebar_spec().items_spec(), vm_id@),
            final(self).selected() == Some(vm_id@),
            has_vm(old(self).config_spec().vms@, vm_id@) ==> shows(final(self).main_spec(), old(self).config_spec().vms@, vm_id@),
            !has_vm(old(self).config_spec().vms@, vm_id@) ==> final(self).main_spec() == old(self).main_spec(),
            final(self).main_spec().runs() == old(self).main_spec().runs(),
            final(self).config_spec() == old(self).config_spec(),
            final(self).header_spec() == old(self).header_spec(),
    {
        self.sidebar.select_vm(vm_id);
        self.show_vm_details(vm_id);
    }

    /// The start/stop button for VM `vm_id`, which runs when `running`:
    /// stops it in the pane and the list, or stamps it launched at `now`
    /// and marks it running. True when the registry changed and is to be
    /// saved (on a start).
    pub fn toggle_vm_running(&mut self, vm_id: &str, running: bool, now: i64) -> (res: bool)
        ensures
            res == !running,
            final(self).main_spec().runs() == !running,
            final(self).main_spec().current() == old(self).main_spec().current(),
            final(self).main_spec().shown() == old(self).main_spec().shown(),
            rows_running(old(self).sidebar_spec().items_spec(), final(self).sidebar_spec().items_spec(), vm_id@, !running),
            final(self).sidebar_spec().selected() == old(self).sidebar_spec().selected(),
            running ==> final(self).config_spec() == old(self).config_spec(),
            !running && !has_vm(old(self).config_spec().vms@, vm_id@) ==> final(self).config_spec().vms@ == old(self).config_spec().vms@,
            !running && has_vm(old(self).config_spec().vms@, vm_id@) ==> exists|i: int|
                first_vm(old(self).config_spec().vms@, vm_id@, i) && final(self).config_spec().vms@ == old(self).config_spec().vms@.update(
                    i,
                    VmConfig { last_used: Some(now), ..old(self).config_spec().vms@[i] },
                ),
            final(self).config_spec().qemu_path == old(self).config_spec().qemu_path,
            final(self).config_spec().default_iso_dir == old(self).config_spec().default_iso_dir,
            final(self).selected() == old(self).selected(),
            final(self).header_spec() == old(self).header_spec(),
    {
        if running {
            self.main_area.set_running(false);
            self.sidebar.set_vm_running(vm_id, false);
            false
        } else {
            self.config.mark_launched(vm_id, now);
            self.main_area.set_running(true);
            self.sidebar.set_vm_running(vm_id, true);
            true
        }
    }

    /// Deletes VM `vm_id` from the registry: false when it has no such VM
    /// (nothing else changes). Otherwise the list is rebuilt, and when the
    /// deleted VM was selected the selection moves to the first remaining
    /// VM, or is cleared when none remains. The caller saves the registry
    /// after a deletion.
    pub fn delete_vm(&mut self, vm_id: &str) -> (res: bool)
        ensures
            res == has_vm(old(self).config_spec().vms@, vm_id@),
            final(self).config_spec().vms@ == vms_without(old(self).config_spec().vms@, vm_id@),
            final(self).config_spec().qemu_path == old(self).config_spec().qemu_path,
            final(self).config_spec().default_iso_dir == old(self).config_spec().default_iso_dir,
            final(self).header_spec() == old(self).header_spec(),
            final(self).main_spec().runs() == old(self).main_spec().runs(),
            !res ==> {
                &&& final(self).sidebar_spec() == old(self).sidebar_spec()
                &&& final(self).main_spec() == old(self).main_spec()
                &&& final(self).selected() == old(self).selected()
            },
            res && old(self).selected() != Some(vm_id@) ==> {
                &&& final(self).selected() == old(self).selected()
                &&& final(self).sidebar_spec().selected() is None
                &&& rows_of(final(self).sidebar_spec().items_spec(), final(self).config_spec().vms@, None)
                &&& final(self).main_spec() == old(self).main_spec()
            },
            res && old(self).selected() == Some(vm_id@) && final(self).config_spec().vms@.len() == 0 ==> {
                &&& final(self).selected() is None
                &&& final(self).sidebar_spec().selected() is None
                &&& final(self).sidebar_spec().items_spec().len() == 0
                &&& final(self).main_spec() == old(self).main_spec()
            },
            res && old(self).selected() == Some(vm_id@) && final(self).config_spec().vms@.len() > 0 ==> {
                let first = final(self).config_spec().vms@[0].id@;
                &&& final(self).selected() == Some(first)
                &&& final(self).sidebar_spec().selected() == Some(first)
                &&& rows_of(final(self).sidebar_spec().items_spec(), final(self).config_spec().vms@, Some(first))
                &&& shows(final(self).main_spec(), final(self).config_spec().vms@, first)
            },
    {
        if !self.config.remove_vm(vm_id) {
            return false;
        }
        self.refresh_vm_list();
        let was_selected = match &self.selected_vm {
            Some(s) => str_eq(s.as_str(), vm_id),
            None => false,
        };
        if was_selected {
            self.selected_vm = None;
            if self.config.vms.len() > 0 {
                let first = self.config.vms[0].id.clone();
                let ghost rows = self.sidebar.items@;
                assert(has_vm(self.config.vms@, first@)) by {
                    assert(self.config.vms@[0].id@ == first@);
                }
                self.select_vm(first.as_str());
                proof {
                    lemma_rows_after_select(rows, self.sidebar.items@, self.config.vms@, first@);
                }
            }
        }
        true
    }

    /// The id of the selected VM.
    pub fn selected_vm(&self) -> (res: Option<&String>)
        ensures
            match res {
                Some(s) => self.selected() == Some(s@),
                None => self.selected() is None,
            },
    {
        match &self.selected_vm {
            Some(s) => Some(s),
            None => None,
        }
    }

    /// The registry the window shows.
    pub fn config(&self) -> (res: &AppConfig)
        ensures
            *res == self.config_spec(),
    {
        &self.config
    }

    /// The VM list.
    pub fn sidebar(&self) -> (res: &Sidebar)
        ensures
            *res == self.sidebar_spec(),
    {
        &self.sidebar
    }

    /// The detail pane.
    pub fn main_area(&self) -> (res: &MainArea)
        ensures
            *res == self.main_spec(),
    {
        &self.main_area
    }

    /// The header.
    pub fn header(&self) -> (res: &Header)
        ensures
            *res == self.header_spec(),
    {
        &self.header
    }
}

} // verus!
