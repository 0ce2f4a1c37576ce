//! Live VM statistics: the snapshot shown in the VM detail view, its CPU
//! colour code and the uptime text.

use vstd::prelude::*;
use crate::qmp::{connect_outcome_is, BalloonStats, CpuStats, QmpClient, QmpError};
use crate::paths::exists_answer;
use crate::text::{dec, dec2, push_decimal, push_decimal2};

verus! {

/// Snapshot of VM resource usage at a point in time.
#[derive(Debug, Clone, Default)]
pub struct VmStats {
    pub cpu_percent: u32,
    pub ram_used_mb: u32,
    pub ram_total_mb: u32,
    pub disk_io_mbps: u32,
    pub uptime_seconds: u64,
}

/// The colour token for a CPU usage: red above 70%, yellow above 40%,
/// green otherwise.
pub open spec fn cpu_color_of(cpu_percent: u32) -> Seq<char> {
    if cpu_percent > 70 {
        "red"@
    } else if cpu_percent > 40 {
        "yellow"@
    } else {
        "green"@
    }
}

impl VmStats {
    /// CSS-friendly colour token for the CPU usage.
    pub fn cpu_color(&self) -> (res: &'static str)
        ensures
            res@ == cpu_color_of(self.cpu_percent),
    {
        if self.cpu_percent > 70 {
            "red"
        } else if self.cpu_percent > 40 {
            "yellow"
        } else {
            "green"
        }
    }

    /// The snapshot for one poll: CPU usage, balloon size as RAM used and
    /// total, no disk I/O figure (QMP does not report it), and the uptime.
    pub fn from_samples(cpu: &CpuStats, balloon: &BalloonStats, uptime_seconds: u64) -> (res: VmStats)
        ensures
            res.cpu_percent == cpu.usage_percent,
            res.ram_used_mb == balloon.actual_mb,
            res.ram_total_mb == balloon.total_mb,
            res.disk_io_mbps == 0,
            res.uptime_seconds == uptime_seconds,
    {
        VmStats {
            cpu_percent: cpu.usage_percent,
            ram_used_mb: balloon.actual_mb,
            ram_total_mb: balloon.total_mb,
            disk_io_mbps: 0,
            uptime_seconds,
        }
    }
}

#[verifier::external_type_specification]
#[verifier::external_body]
pub struct ExInstant(std::time::Instant);

/// `Instant::now`: a reading of the monotonic clock. Nothing is stated of
/// it.
#[verifier::external_body]
fn instant_now() -> std::time::Instant {
    std::time::Instant::now()
}

/// `Instant::elapsed` since `start`, in whole seconds (`Duration::as_secs`).
/// It depends on the clock; nothing is stated of it.
#[verifier::external_body]
fn whole_secs_since(start: &std::time::Instant) -> u64 {
    start.elapsed().as_secs()
}

/// `res` is the outcome of making a monitor of `path` when the existence
/// probe answered `exists`: a monitor of that socket, or `ConnectionFailed`
/// exactly when nothing exists there.
pub open spec fn monitor_outcome_is(res: Result<StatsMonitor, QmpError>, path: Seq<char>, exists: bool) -> bool {
    if exists {
        res matches Ok(m) && m.client()@ == path
    } else {
        res matches Err(QmpError::ConnectionFailed)
    }
}

/// Tracks the uptime of one VM whose QMP socket it holds; the caller polls
/// QMP through `qmp` and hands the samples to `get_stats`.
pub struct StatsMonitor {
    qmp: QmpClient,
    uptime_start: std::time::Instant,
}

impl StatsMonitor {
    /// The QMP client of the monitored VM.
    pub closed spec fn client(&self) -> QmpClient {
        self.qmp
    }

    /// A monitor of the QMP socket at `socket_path`, with the uptime clock
    /// started now: as `QmpClient::connect`, a monitor of that socket when
    /// something exists at the path, `ConnectionFailed` exactly when
    /// nothing does.
    pub fn new(socket_path: String) -> (res: Result<Self, QmpError>)
        ensures
            exists|exists: bool| #[trigger] monitor_outcome_is(res, socket_path@, exists),
            exists|exists: bool| #[trigger] exists_answer(socket_path@, exists) && monitor_outcome_is(res, socket_path@, exists),
    {
        let ghost path = socket_path@;
        let connected = QmpClient::connect(socket_path);
        let ghost e = choose|e: bool| exists_answer(path, e) && connect_outcome_is(connected, path, e);
        match connected {
            Ok(qmp) => {
                let res = Ok(StatsMonitor { qmp, uptime_start: instant_now() });
                assert(e);
                assert(monitor_outcome_is(res, path, e));
                res
            },
            Err(err) => {
                assert(!e);
                let res: Result<Self, QmpError> = Err(err);
                assert(monitor_outcome_is(res, path, e));
                res
            },
        }
    }

    /// The QMP client to poll.
    pub fn qmp(&self) -> (res: &QmpClient)
        ensures
            *res == self.client(),
    {
        &self.qmp
    }

    /// The snapshot for one poll from its CPU and balloon samples: the CPU
    /// usage, the balloon size as RAM used and total, no disk I/O figure,
    /// and the seconds since the monitor was made as uptime.
    pub fn get_stats(&self, cpu: &CpuStats, balloon: &BalloonStats) -> (res: VmStats)
        ensures
            res.cpu_percent == cpu.usage_percent,
            res.ram_used_mb == balloon.actual_mb,
            res.ram_total_mb == balloon.total_mb,
            res.disk_io_mbps == 0,
    {
        let uptime = whole_secs_since(&self.uptime_start);
        VmStats::from_samples(cpu, balloon, uptime)
    }
}

/// `Hh MMm SSs`: whole hours, then minutes and seconds zero-padded to two
/// digits (e.g. `1h 12m 04s`).
pub open spec fn uptime_text(total_sec: nat) -> Seq<char> {
    dec(total_sec / 3600) + "h "@ + dec2((total_sec % 3600) / 60) + "m "@ + dec2(total_sec % 60) + "s"@
}

/// Formats a duration in seconds as `Hh MMm SSs`.
pub fn format_uptime(total_sec: u64) -> (res: String)
    ensures
        res@ == uptime_text(total_sec as nat),
{
    let h = total_sec / 3600;
    let m = (total_sec % 3600) / 60;
    let s = total_sec % 60;
    let mut out = String::new();
    push_decimal(&mut out, h);
    out.append("h ");
    push_decimal2(&mut out, m);
    out.append("m ");
    push_decimal2(&mut out, s);
    out.append("s");
    out
}

} // verus!
