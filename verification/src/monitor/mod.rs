//! The operating system and its disks, as reported for one snapshot.

use vstd::prelude::*;

verus! {

/// Identity and memory figures of the operating system.
#[derive(Debug, Clone, PartialEq, Eq)]
pub struct Os {
    /// Name of the platform.
    pub os_type: String,
    pub kernel_version: String,
    pub os_version: String,
    pub host_name: String,
    /// Number of logical CPUs.
    pub cpu_num: usize,
    pub total_memory: u64,
    pub used_memory: u64,
    pub total_swap: u64,
    pub used_swap: u64,
}

/// What an `Os` says, with its texts as sequences of characters.
pub struct OsView {
    pub os_type: Seq<char>,
    pub kernel_version: Seq<char>,
    pub os_version: Seq<char>,
    pub host_name: Seq<char>,
    pub cpu_num: usize,
    pub total_memory: u64,
    pub used_memory: u64,
    pub total_swap: u64,
    pub used_swap: u64,
}

impl View for Os {
    type V = OsView;

    open spec fn view(&self) -> OsView {
        OsView {
            os_type: self.os_type@,
            kernel_version: self.kernel_version@,
            os_version: self.os_version@,
            host_name: self.host_name@,
            cpu_num: self.cpu_num,
            total_memory: self.total_memory,
            used_memory: self.used_memory,
            total_swap: self.total_swap,
            used_swap: self.used_swap,
        }
    }
}

impl OsView {
    /// Empty texts and zeros.
    pub open spec fn empty() -> OsView {
        OsView {
            os_type: Seq::empty(),
            kernel_version: Seq::empty(),
            os_version: Seq::empty(),
            host_name: Seq::empty(),
            cpu_num: 0,
            total_memory: 0,
            used_memory: 0,
            total_swap: 0,
            used_swap: 0,
        }
    }
}

impl Default for Os {
    fn default() -> (os: Os)
        ensures
            os@ == OsView::empty(),
    {
        Os {
            os_type: String::new(),
            kernel_version: String::new(),
            os_version: String::new(),
            host_name: String::new(),
            cpu_num: 0,
            total_memory: 0,
            used_memory: 0,
            total_swap: 0,
            used_swap: 0,
        }
    }
}

/// One disk.
#[derive(Debug, Clone, PartialEq, Eq)]
pub struct OsDisk {
    /// `HDD`, `SSD` or `UNKNOWN`.
    pub type_: String,
    pub name: String,
    pub total_space: u64,
    pub available_space: u64,
    pub mount_point: String,
    pub is_removable: bool,
}

/// What an `OsDisk` says, with its texts as sequences of characters.
pub struct OsDiskView {
    pub type_: Seq<char>,
    pub name: Seq<char>,
    pub total_space: u64,
    pub available_space: u64,
    pub mount_point: Seq<char>,
    pub is_removable: bool,
}

impl View for OsDisk {
    type V = OsDiskView;

    open spec fn view(&self) -> OsDiskView {
        OsDiskView {
            type_: self.type_@,
            name: self.name@,
            total_space: self.total_space,
            available_space: self.available_space,
            mount_point: self.mount_point@,
            is_removable: self.is_removable,
        }
    }
}

impl OsDiskView {
    /// Empty texts, zeros, and not removable.
    pub open spec fn empty() -> OsDiskView {
        OsDiskView {
            type_: Seq::empty(),
            name: Seq::empty(),
            total_space: 0,
            available_space: 0,
            mount_point: Seq::empty(),
            is_removable: false,
        }
    }
}

impl Default for OsDisk {
    fn default() -> (disk: OsDisk)
        ensures
            disk@ == OsDiskView::empty(),
    {
        OsDisk {
            type_: String::new(),
            name: String::new(),
            total_space: 0,
            available_space: 0,
            mount_point: String::new(),
            is_removable: false,
        }
    }
}

/// What each disk of a list says, in the list's order.
pub open spec fn disk_views(disks: Seq<OsDisk>) -> Seq<OsDiskView> {
    Seq::new(disks.len(), |i: int| disks[i]@)
}

/// Bytes that a process moved to and from disk.
#[derive(Debug, Clone, Copy, PartialEq, Eq)]
pub struct DiskUsage {
    pub total_written_bytes: u64,
    pub written_bytes: u64,
    pub total_read_bytes: u64,
    pub read_bytes: u64,
}

impl Default for DiskUsage {
    fn default() -> (usage: DiskUsage)
        ensures
            usage == (DiskUsage {
                total_written_bytes: 0,
                written_bytes: 0,
                total_read_bytes: 0,
                read_bytes: 0,
            }),
    {
        DiskUsage { total_written_bytes: 0, written_bytes: 0, total_read_bytes: 0, read_bytes: 0 }
    }
}

/// The technology of a disk.
#[derive(Debug, Clone, Copy, PartialEq, Eq)]
pub enum DiskKind {
    Hdd,
    Ssd,
    Unknown,
}

/// What the host said of itself when it was asked. A text is `None` where the host gave
/// no answer.
#[derive(Debug, Clone, PartialEq, Eq)]
pub struct HostReport {
    pub name: Option<String>,
    pub kernel_version: Option<String>,
    pub os_version: Option<String>,
    pub host_name: Option<String>,
    pub cpu_num: usize,
    pub total_memory: u64,
    pub used_memory: u64,
    pub total_swap: u64,
    pub used_swap: u64,
}

/// What the host said of one disk. A text is `None` where the host's answer cannot be
/// written as text.
#[derive(Debug, Clone, PartialEq, Eq)]
pub struct DiskReport {
    pub kind: DiskKind,
    pub name: Option<String>,
    pub total_space: u64,
    pub available_space: u64,
    pub mount_point: Option<String>,
    pub is_removable: bool,
}

/// The text, or the empty text where there is none.
pub open spec fn text_or_empty(text: Option<String>) -> Seq<char> {
    match text {
        Some(t) => t@,
        None => Seq::empty(),
    }
}

/// The name under which a kind of disk is reported.
pub open spec fn kind_label(kind: DiskKind) -> Seq<char> {
    match kind {
        DiskKind::Hdd => "HDD"@,
        DiskKind::Ssd => "SSD"@,
        DiskKind::Unknown => "UNKNOWN"@,
    }
}

/// The system information that a host report gives: every missing text is empty.
pub open spec fn os_of(host: HostReport) -> OsView {
    OsView {
        os_type: text_or_empty(host.name),
        kernel_version: text_or_empty(host.kernel_version),
        os_version: text_or_empty(host.os_version),
        host_name: text_or_empty(host.host_name),
        cpu_num: host.cpu_num,
        total_memory: host.total_memory,
        used_memory: host.used_memory,
        total_swap: host.total_swap,
        used_swap: host.used_swap,
    }
}

/// The disk information that a disk report gives: the kind by its label, every missing
/// text empty.
pub open spec fn disk_of(disk: DiskReport) -> OsDiskView {
    OsDiskView {
        type_: kind_label(disk.kind),
        name: text_or_empty(disk.name),
        total_space: disk.total_space,
        available_space: disk.available_space,
        mount_point: text_or_empty(disk.mount_point),
        is_removable: disk.is_removable,
    }
}

/// The disk information of every report of a list, in the list's order.
pub open spec fn disks_of(disks: Seq<DiskReport>) -> Seq<OsDiskView> {
    Seq::new(disks.len(), |i: int| disk_of(disks[i]))
}

/// Copies the text, or makes an empty one where there is none.
fn text_or_default(text: &Option<String>) -> (copy: String)
    ensures
        copy@ == text_or_empty(*text),
{
    match text {
        Some(t) => t.clone(),
        None => String::new(),
    }
}

/// Writes out the label of a kind of disk.
fn label_of(kind: DiskKind) -> (label: String)
    ensures
        label@ == kind_label(kind),
{
    match kind {
        DiskKind::Hdd => "HDD".to_owned(),
        DiskKind::Ssd => "SSD".to_owned(),
        DiskKind::Unknown => "UNKNOWN".to_owned(),
    }
}

/// The host as it was when it was last asked: what it said of itself and of its disks.
pub struct Monitor {
    pub host: HostReport,
    pub disks: Vec<DiskReport>,
}

impl Monitor {
    /// Keeps what the host reported.
    pub fn new(host: HostReport, disks: Vec<DiskReport>) -> (monitor: Monitor)
        ensures
            monitor.host == host,
            monitor.disks == disks,
    {
        Monitor { host, disks }
    }

    /// The system information, with an empty text wherever the host gave none.
    pub fn get_system_info(&self) -> (os: Os)
        ensures
            os@ == os_of(self.host),
    {
        Os {
            os_type: text_or_default(&self.host.name),
            kernel_version: text_or_default(&self.host.kernel_version),
            os_version: text_or_default(&self.host.os_version),
            host_name: text_or_default(&self.host.host_name),
            cpu_num: self.host.cpu_num,
            total_memory: self.host.total_memory,
            used_memory: self.host.used_memory,
            total_swap: self.host.total_swap,
            used_swap: self.host.used_swap,
        }
    }

    /// The information of every disk, in the order in which the host listed them.
    pub fn get_all_disk_info(&self) -> (disks: Vec<OsDisk>)
        ensures
            disk_views(disks@) == disks_of(self.disks@),
    {
        let mut disks: Vec<OsDisk> = Vec::new();
        let mut i: usize = 0;
        while i < self.disks.len()
            invariant
                i <= self.disks.len(),
                disks.len() == i,
                forall|j: int| 0 <= j < i ==> (#[trigger] disks[j])@ == disk_of(self.disks[j]),
            decreases self.disks.len() - i,
        {
            let disk = &self.disks[i];
            disks.push(
                OsDisk {
                    type_: label_of(disk.kind),
                    name: text_or_default(&disk.name),
                    total_space: disk.total_space,
                    available_space: disk.available_space,
                    mount_point: text_or_default(&disk.mount_point),
                    is_removable: disk.is_removable,
                },
            );
            i += 1;
        }
        proof {
            assert(disk_views(disks@) =~= disks_of(self.disks@));
        }
        disks
    }
}

} // verus!
