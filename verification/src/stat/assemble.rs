//! Putting a snapshot together from what the lookups gave, and reporting it.

use crate::monitor::{disks_of, os_of, Monitor, OsDiskView, OsView};
use crate::prepare::{
    failure_of, get_error_response, get_success_response, success_of, HttpResponse,
    HttpResponseView,
};
use crate::stat::{CpuInfo, MemInfo, Percent, Stat, SystemInfo, SystemInfoView};
use crate::text::{chars_of, parse_decimal, parse_u64};
use vstd::prelude::*;

verus! {

/// What the description of the processors holds: the fields that all processors have
/// in common, each with its name and its value, and the number of processors.
#[derive(Debug, Clone, PartialEq, Eq)]
pub struct CpuReport {
    pub common_fields: Vec<(String, String)>,
    pub cpu_count: usize,
}

/// What the description of the memory holds.
#[derive(Debug, Clone, Copy, PartialEq, Eq)]
pub struct MemReport {
    pub mem_total: u64,
    /// `None` on a kernel that does not estimate it.
    pub mem_available: Option<u64>,
}

/// The value of the first field of `fields` whose name is `name`.
pub open spec fn field_value(fields: Seq<(String, String)>, name: Seq<char>) -> Option<Seq<char>>
    decreases fields.len(),
{
    if fields.len() == 0 {
        None
    } else if fields[0].0@ == name {
        Some(fields[0].1@)
    } else {
        field_value(fields.drop_first(), name)
    }
}

/// The number that `value` writes; zero where there is no value or it is no number.
pub open spec fn number_or_zero(value: Option<Seq<char>>) -> u64 {
    match value {
        Some(text) => match parse_u64(text) {
            Some(number) => number,
            None => 0,
        },
        None => 0,
    }
}

/// The processor information that a report gives: the physical cores are the number
/// in the common field `cpu cores`, the logical cores are the processors; no usage yet.
pub open spec fn cpu_info_of(report: CpuReport) -> CpuInfo {
    CpuInfo {
        physics_core_num: number_or_zero(field_value(report.common_fields@, "cpu cores"@)),
        virtual_core_num: report.cpu_count as u64,
        usage: Percent { hundredths: 0 },
    }
}

/// The memory information that a report gives: memory whose availability is not
/// estimated counts as zero.
pub open spec fn mem_info_of(report: MemReport) -> MemInfo {
    MemInfo {
        mem_total: report.mem_total,
        mem_available: match report.mem_available {
            Some(available) => available,
            None => 0,
        },
    }
}

/// What the snapshot says when the lookup of the processors has failed: the system
/// and the disks, nothing else.
pub open spec fn snapshot_without_cpu(os: OsView, disks: Seq<OsDiskView>) -> SystemInfoView {
    SystemInfoView { os, disk_list: disks, ..SystemInfoView::empty() }
}

/// What the snapshot says when the lookup of the memory has failed: the system, the
/// disks and the processor with its usage.
pub open spec fn snapshot_without_memory(
    os: OsView,
    disks: Seq<OsDiskView>,
    cpu: CpuReport,
    cpu_usage: Percent,
) -> SystemInfoView {
    SystemInfoView {
        cpu_info: CpuInfo { usage: cpu_usage, ..cpu_info_of(cpu) },
        ..snapshot_without_cpu(os, disks)
    }
}

/// What the full snapshot says.
pub open spec fn full_snapshot(
    os: OsView,
    disks: Seq<OsDiskView>,
    cpu: CpuReport,
    cpu_usage: Percent,
    mem: MemReport,
    home_dir: Seq<char>,
) -> SystemInfoView {
    SystemInfoView {
        mem_info: mem_info_of(mem),
        home_dir,
        ..snapshot_without_memory(os, disks, cpu, cpu_usage)
    }
}

/// The report on a host, given what each lookup came to. The first lookup that failed
/// decides: the report then has code 500, that lookup's message, and what was known
/// before it. With both lookups done the report has code 200, no message and the full
/// snapshot.
pub open spec fn report_of(
    cpu_usage: Percent,
    os: OsView,
    disks: Seq<OsDiskView>,
    cpu_lookup: Result<CpuReport, String>,
    mem_lookup: Result<MemReport, String>,
    home_dir: Seq<char>,
) -> HttpResponseView {
    match cpu_lookup {
        Err(message) => failure_of(Some(snapshot_without_cpu(os, disks)), message@),
        Ok(cpu) => match mem_lookup {
            Err(message) => failure_of(
                Some(snapshot_without_memory(os, disks, cpu, cpu_usage)),
                message@,
            ),
            Ok(mem) => success_of(Some(full_snapshot(os, disks, cpu, cpu_usage, mem, home_dir))),
        },
    }
}

/// The message of the first lookup that failed, if one did.
pub open spec fn first_failure(
    cpu_lookup: Result<CpuReport, String>,
    mem_lookup: Result<MemReport, String>,
) -> Option<Seq<char>> {
    match cpu_lookup {
        Err(message) => Some(message@),
        Ok(_) => match mem_lookup {
            Err(message) => Some(message@),
            Ok(_) => None,
        },
    }
}

/// Every report carries a snapshot with the system and the disks, whatever failed. A
/// report of a failure has code 500 and the message of the first lookup that failed;
/// any other report has code 200 and no message.
pub proof fn lemma_report_keeps_what_is_known(
    cpu_usage: Percent,
    os: OsView,
    disks: Seq<OsDiskView>,
    cpu_lookup: Result<CpuReport, String>,
    mem_lookup: Result<MemReport, String>,
    home_dir: Seq<char>,
)
    ensures
        ({
            let report = report_of(cpu_usage, os, disks, cpu_lookup, mem_lookup, home_dir);
            &&& report.body matches Some(body) && body.os == os && body.disk_list == disks
            &&& match first_failure(cpu_lookup, mem_lookup) {
                Some(message) => report.code == 500 && report.error == message,
                None => report.code == 200 && report.error.len() == 0,
            }
        }),
{
}

/// A failed lookup of the memory is reported with code 500 and a snapshot that is not
/// empty: it holds the system and the disks, and the processor with its usage where
/// that lookup was done. The message is as long as the lookup's own.
pub proof fn lemma_failed_memory_lookup(
    cpu_usage: Percent,
    os: OsView,
    disks: Seq<OsDiskView>,
    cpu: CpuReport,
    message: String,
    home_dir: Seq<char>,
)
    ensures
        ({
            let report = report_of(
                cpu_usage,
                os,
                disks,
                Ok(cpu),
                Err(message),
                home_dir,
            );
            &&& report.code == 500
            &&& report.error == message@
            &&& report.body matches Some(body) && body.os == os && body.disk_list == disks
                && body.cpu_info.usage == cpu_usage
        }),
{
}

/// Looks up a field by its name.
fn find_field<'a>(fields: &'a Vec<(String, String)>, name: &str) -> (value: Option<&'a String>)
    ensures
        match value {
            Some(text) => field_value(fields@, name@) == Some(text@),
            None => field_value(fields@, name@) is None,
        },
{
    let wanted = name.to_owned();
    let mut i: usize = 0;
    proof {
        assert(fields@.skip(0) =~= fields@);
    }
    while i < fields.len()
        invariant
            i <= fields.len(),
            wanted@ == name@,
            field_value(fields@, name@) == field_value(fields@.skip(i as int), name@),
        decreases fields.len() - i,
    {
        if fields[i].0 == wanted {
            proof {
                assert(fields@.skip(i as int)[0] == fields@[i as int]);
            }
            return Some(&fields[i].1);
        }
        proof {
            assert(fields@.skip(i as int).drop_first() =~= fields@.skip(i + 1));
        }
        i += 1;
    }
    proof {
        assert(fields@.skip(i as int) =~= Seq::<(String, String)>::empty());
    }
    None
}

impl Stat {
    /// The processor information, from what the lookup of the processors came to. A
    /// failed lookup hands its message on.
    pub fn get_cup_info(lookup: Result<CpuReport, String>) -> (r: Result<CpuInfo, String>)
        ensures
            match lookup {
                Ok(report) => r == Ok::<CpuInfo, String>(cpu_info_of(report)),
                Err(message) => r matches Err(m) && m@ == message@,
            },
    {
        let report = match lookup {
            Ok(report) => report,
            Err(message) => {
                return Err(message);
            },
        };
        let mut info = CpuInfo::default();
        if let Some(text) = find_field(&report.common_fields, "cpu cores") {
            let chars = chars_of(text.as_str());
            proof {
                assert(chars@.subrange(0, chars.len() as int) =~= chars@);
            }
            if let Some(number) = parse_decimal(&chars, 0, chars.len()) {
                info.physics_core_num = number;
            }
        }
        if report.cpu_count > 0 {
            info.virtual_core_num = report.cpu_count as u64;
        }
        Ok(info)
    }

    /// The memory information, from what the lookup of the memory came to. A failed
    /// lookup hands its message on.
    pub fn get_mem_info(lookup: Result<MemReport, String>) -> (r: Result<MemInfo, String>)
        ensures
            match lookup {
                Ok(report) => r == Ok::<MemInfo, String>(mem_info_of(report)),
                Err(message) => r matches Err(m) && m@ == message@,
            },
    {
        let report = match lookup {
            Ok(report) => report,
            Err(message) => {
                return Err(message);
            },
        };
        let mem_total = report.mem_total;
        let mem_available = match report.mem_available {
            Some(available) => available,
            None => 0,
        };
        Ok(MemInfo { mem_total, mem_available })
    }

    /// The report of a failure that keeps what the snapshot holds so far.
    pub fn get_system_info_error(system_info: SystemInfo, err: &str) -> (response: HttpResponse)
        ensures
            response@ == failure_of(Some(system_info@), err@),
    {
        let mut res = get_error_response(err);
        res.body = Some(system_info);
        res
    }

    /// Begins a snapshot with what the host said of itself and of its disks. The
    /// processor, the memory and the home directory are still to be asked for, in
    /// that order.
    pub fn begin_system_info(monitor: &Monitor) -> (system_info: SystemInfo)
        ensures
            system_info@ == snapshot_without_cpu(os_of(monitor.host), disks_of(monitor.disks@)),
    {
        let mut system_info = SystemInfo::default();

        let os = monitor.get_system_info();
        system_info.os = os;

        let disk_list = monitor.get_all_disk_info();
        system_info.disk_list = disk_list;
        system_info
    }

    /// Adds the processor and its usage to a snapshot. Where the lookup of the
    /// processors failed, the snapshot is done: the `Err` holds the report of the
    /// failure, which keeps the snapshot as it was, and nothing more is to be asked.
    pub fn add_cpu_info(
        system_info: SystemInfo,
        cpu_usage: Percent,
        cpu_lookup: Result<CpuReport, String>,
    ) -> (r: Result<SystemInfo, HttpResponse>)
        ensures
            match cpu_lookup {
                Ok(cpu) => r matches Ok(info) && info@ == (SystemInfoView {
                    cpu_info: CpuInfo { usage: cpu_usage, ..cpu_info_of(cpu) },
                    ..system_info@
                }),
                Err(message) => r matches Err(response) && response@ == failure_of(
                    Some(system_info@),
                    message@,
                ),
            },
    {
        let mut system_info = system_info;
        let cpu_info = match Self::get_cup_info(cpu_lookup) {
            Ok(info) => info,
            Err(err) => {
                return Err(Self::get_system_info_error(system_info, err.as_str()));
            },
        };

        system_info.cpu_info = cpu_info;
        system_info.cpu_info.usage = cpu_usage;
        Ok(system_info)
    }

    /// Adds the memory to a snapshot. Where the lookup of the memory failed, the
    /// snapshot is done: the `Err` holds the report of the failure, which keeps the
    /// snapshot as it was, and nothing more is to be asked.
    pub fn add_mem_info(system_info: SystemInfo, mem_lookup: Result<MemReport, String>) -> (r:
        Result<SystemInfo, HttpResponse>)
        ensures
            match mem_lookup {
                Ok(mem) => r matches Ok(info) && info@ == (SystemInfoView {
                    mem_info: mem_info_of(mem),
                    ..system_info@
                }),
                Err(message) => r matches Err(response) && response@ == failure_of(
                    Some(system_info@),
                    message@,
                ),
            },
    {
        let mut system_info = system_info;
        let mem_info = match Self::get_mem_info(mem_lookup) {
            Ok(info) => info,
            Err(err) => {
                return Err(Self::get_system_info_error(system_info, err.as_str()));
            },
        };

        system_info.mem_info = mem_info;
        Ok(system_info)
    }

    /// Adds the home directory to a snapshot and reports the snapshot, which is then
    /// full.
    pub fn finish_system_info(system_info: SystemInfo, home_dir: String) -> (response:
        HttpResponse)
        ensures
            response@ == success_of(
                Some(SystemInfoView { home_dir: home_dir@, ..system_info@ }),
            ),
    {
        let mut system_info = system_info;
        system_info.home_dir = home_dir;
        get_success_response(Some(system_info))
    }

    /// Puts the snapshot together and reports it, all lookups being done.
    ///
    /// `monitor` holds what the host said of itself and of its disks, `cpu_lookup` and
    /// `mem_lookup` what the lookups of the processors and of the memory came to, each
    /// with its message where it failed, and `home_dir` the home directory as it was
    /// resolved. The usage is `cpu_usage`. What comes after a failed lookup is not
    /// looked at.
    pub fn get_system_info(
        cpu_usage: Percent,
        monitor: &Monitor,
        cpu_lookup: Result<CpuReport, String>,
        mem_lookup: Result<MemReport, String>,
        home_dir: String,
    ) -> (response: HttpResponse)
        ensures
            response@ == report_of(
                cpu_usage,
                os_of(monitor.host),
                disks_of(monitor.disks@),
                cpu_lookup,
                mem_lookup,
                home_dir@,
            ),
    {
        let system_info = Self::begin_system_info(monitor);
        let system_info = match Self::add_cpu_info(system_info, cpu_usage, cpu_lookup) {
            Ok(info) => info,
            Err(response) => {
                return response;
            },
        };
        let system_info = match Self::add_mem_info(system_info, mem_lookup) {
            Ok(info) => info,
            Err(response) => {
                return response;
            },
        };
        Self::finish_system_info(system_info, home_dir)
    }
}

} // verus!
