//! CPU counters read from the kernel's statistics text, the usage estimate taken from
//! two of them, and the snapshot that reports it.

pub mod assemble;
pub mod counters;
pub mod home;
pub mod usage;

use crate::monitor::{disk_views, Os, OsDisk, OsDiskView, OsView};
use crate::stat::usage::usage_hundredths;
use vstd::prelude::*;

verus! {

/// Cumulative CPU time since boot, in ticks, by what the time was spent on.
#[derive(Debug, Clone, Copy, PartialEq, Eq)]
pub struct CpuUsageInfo {
    pub user: u64,
    pub nice: u64,
    pub system: u64,
    pub idle: u64,
    pub io_wait: u64,
    pub irq: u64,
    pub soft_irq: u64,
    pub steal_stolen: u64,
    pub guest: u64,
    pub guest_nice: u64,
}

impl CpuUsageInfo {
    /// The sum of all ten counters.
    pub open spec fn total(self) -> int {
        self.user + self.nice + self.system + self.idle + self.io_wait + self.irq
            + self.soft_irq + self.steal_stolen + self.guest + self.guest_nice
    }

    /// Adds up all ten counters. The sum of ten 64-bit counters needs more than 64
    /// bits, so it is returned in 128.
    pub fn get_total_time(info: &CpuUsageInfo) -> (total: u128)
        ensures
            total == info.total(),
    {
        info.user as u128 + info.nice as u128 + info.system as u128 + info.idle as u128
            + info.io_wait as u128 + info.irq as u128 + info.soft_irq as u128
            + info.steal_stolen as u128 + info.guest as u128 + info.guest_nice as u128
    }
}

/// Why a statistics text gave no counters.
#[derive(Debug, Clone, Copy, PartialEq, Eq)]
pub enum ParseError {
    /// No line has `cpu` as its first token.
    MissingCpuLine,
    /// The aggregate line has fewer than ten tokens after its label.
    MissingField,
    /// One of the ten tokens after the label is not an unsigned 64-bit decimal number.
    InvalidField,
}

/// A percentage with two decimal places, held as a count of hundredths of a percent:
/// 1250 stands for 12.50 %.
#[derive(Debug, Clone, Copy, PartialEq, Eq)]
pub struct Percent {
    pub hundredths: u128,
}

impl Default for Percent {
    fn default() -> (percent: Percent)
        ensures
            percent.hundredths == 0,
    {
        Percent { hundredths: 0 }
    }
}

/// Physical memory.
#[derive(Debug, Clone, Copy, PartialEq, Eq)]
pub struct MemInfo {
    /// Total usable physical memory.
    pub mem_total: u64,
    /// An estimate of the memory available to new programs.
    pub mem_available: u64,
}

impl Default for MemInfo {
    fn default() -> (info: MemInfo)
        ensures
            info == MemInfo::zero(),
    {
        MemInfo { mem_total: 0, mem_available: 0 }
    }
}

impl MemInfo {
    /// No memory of either kind.
    pub open spec fn zero() -> MemInfo {
        MemInfo { mem_total: 0, mem_available: 0 }
    }
}

/// The processor: how many cores it has and how busy it was.
#[derive(Debug, Clone, Copy, PartialEq, Eq)]
pub struct CpuInfo {
    /// Number of physical cores.
    pub physics_core_num: u64,
    /// Number of logical cores, those that hyper-threading adds included.
    pub virtual_core_num: u64,
    /// Most recent usage.
    pub usage: Percent,
}

impl Default for CpuInfo {
    fn default() -> (info: CpuInfo)
        ensures
            info == CpuInfo::zero(),
    {
        CpuInfo { physics_core_num: 0, virtual_core_num: 0, usage: Percent { hundredths: 0 } }
    }
}

impl CpuInfo {
    /// No cores and no usage.
    pub open spec fn zero() -> CpuInfo {
        CpuInfo { physics_core_num: 0, virtual_core_num: 0, usage: Percent { hundredths: 0 } }
    }
}

/// One snapshot of the whole system.
#[derive(Debug, Clone, PartialEq, Eq)]
pub struct SystemInfo {
    pub os: Os,
    pub disk_list: Vec<OsDisk>,
    pub cpu_info: CpuInfo,
    pub mem_info: MemInfo,
    /// Home directory of the user who is logged in.
    pub home_dir: String,
}

/// What a `SystemInfo` says.
pub struct SystemInfoView {
    pub os: OsView,
    pub disk_list: Seq<OsDiskView>,
    pub cpu_info: CpuInfo,
    pub mem_info: MemInfo,
    pub home_dir: Seq<char>,
}

impl View for SystemInfo {
    type V = SystemInfoView;

    open spec fn view(&self) -> SystemInfoView {
        SystemInfoView {
            os: self.os@,
            disk_list: disk_views(self.disk_list@),
            cpu_info: self.cpu_info,
            mem_info: self.mem_info,
            home_dir: self.home_dir@,
        }
    }
}

impl SystemInfoView {
    /// Nothing known: empty texts, no disks, zeros.
    pub open spec fn empty() -> SystemInfoView {
        SystemInfoView {
            os: OsView::empty(),
            disk_list: Seq::empty(),
            cpu_info: CpuInfo::zero(),
            mem_info: MemInfo::zero(),
            home_dir: Seq::empty(),
        }
    }
}

impl Default for SystemInfo {
    fn default() -> (info: SystemInfo)
        ensures
            info@ == SystemInfoView::empty(),
    {
        let info = SystemInfo {
            os: Os::default(),
            disk_list: Vec::new(),
            cpu_info: CpuInfo::default(),
            mem_info: MemInfo::default(),
            home_dir: String::new(),
        };
        proof {
            assert(disk_views(info.disk_list@) =~= Seq::<OsDiskView>::empty());
        }
        info
    }
}

/// The operations on counters and snapshots.
pub struct Stat;

impl Stat {
    /// Estimates the CPU usage over the time between two snapshots of the counters.
    pub fn calculate_cpu_usage(current: CpuUsageInfo, prev: CpuUsageInfo) -> (usage: Percent)
        ensures
            usage.hundredths == usage_hundredths(current, prev),
    {
        let current_total = CpuUsageInfo::get_total_time(&current);
        let prev_total = CpuUsageInfo::get_total_time(&prev);
        if current_total <= prev_total {
            return Percent { hundredths: 0 };
        }
        let total: u128 = current_total - prev_total;
        // used = total - (current.idle - prev.idle), kept free of negative numbers
        let total_and_idle_before: u128 = total + prev.idle as u128;
        if total_and_idle_before <= current.idle as u128 {
            return Percent { hundredths: 0 };
        }
        let used: u128 = total_and_idle_before - current.idle as u128;
        Percent { hundredths: (2 * (used * 10000) + total) / (2 * total) }
    }
}

} // verus!
