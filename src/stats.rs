//! The values that every measurement source produces, and the interfaces
//! through which a source reaches its raw data.
use vstd::prelude::*;
use vstd::string::*;

verus! {

/// A cgroup v1 controller file, named in the error when its controller is
/// not mounted.
#[derive(Debug, Clone, Copy, PartialEq, Eq, Structural)]
pub enum ControlFile {
    CpuCfsQuotaUs,
    CpuCfsPeriodUs,
    CpuacctUsage,
    MemoryUsageInBytes,
    MemoryLimitInBytes,
    MemoryStat,
}

impl ControlFile {
    pub open spec fn name_text(self) -> Seq<char> {
        match self {
            ControlFile::CpuCfsQuotaUs => "cpu.cfs_quota_us"@,
            ControlFile::CpuCfsPeriodUs => "cpu.cfs_period_us"@,
            ControlFile::CpuacctUsage => "cpuacct.usage"@,
            ControlFile::MemoryUsageInBytes => "memory.usage_in_bytes"@,
            ControlFile::MemoryLimitInBytes => "memory.limit_in_bytes"@,
            ControlFile::MemoryStat => "memory.stat"@,
        }
    }

    /// The file's name.
    pub fn name(&self) -> (r: &'static str)
        ensures
            r@ == self.name_text(),
    {
        match self {
            ControlFile::CpuCfsQuotaUs => "cpu.cfs_quota_us",
            ControlFile::CpuCfsPeriodUs => "cpu.cfs_period_us",
            ControlFile::CpuacctUsage => "cpuacct.usage",
            ControlFile::MemoryUsageInBytes => "memory.usage_in_bytes",
            ControlFile::MemoryLimitInBytes => "memory.limit_in_bytes",
            ControlFile::MemoryStat => "memory.stat",
        }
    }
}

/// Why a source could not supply a metric.
#[derive(Debug, Clone, Copy, PartialEq, Eq, Structural)]
pub enum StatError {
    /// A file, mount point or field that the metric needs is absent.
    NotFound,
    /// The data is present but not in the expected format.
    InvalidData,
    /// The source reports no limit, so it has no figure for the metric.
    Unlimited,
    /// Reading the data failed.
    Io,
    /// The controller that holds this file is not mounted.
    FileNotFound(ControlFile),
}

impl StatError {
    pub open spec fn message_text(self) -> Seq<char> {
        match self {
            StatError::NotFound => "not found"@,
            StatError::InvalidData => "invalid data format"@,
            StatError::Unlimited => "unlimited, no actual limit to report"@,
            StatError::Io => "read failed"@,
            StatError::FileNotFound(f) => f.name_text() + " file not found"@,
        }
    }

    /// A short human-readable description.
    pub fn message(&self) -> (r: String)
        ensures
            r@ == self.message_text(),
    {
        match self {
            StatError::NotFound => String::from_str("not found"),
            StatError::InvalidData => String::from_str("invalid data format"),
            StatError::Unlimited => String::from_str("unlimited, no actual limit to report"),
            StatError::Io => String::from_str("read failed"),
            StatError::FileNotFound(f) => {
                let mut m = String::from_str(f.name());
                m.append(" file not found");
                m
            },
        }
    }
}

/// An exact non-negative fraction `numer / denom`.
#[derive(Debug, Clone, Copy, PartialEq, Eq, Structural)]
pub struct Ratio {
    pub numer: u128,
    pub denom: u128,
}

impl Ratio {
    pub open spec fn is_zero(self) -> bool {
        self.numer == 0 && self.denom == 1
    }

    /// The ratio is at most one.
    pub open spec fn within_unit(self) -> bool {
        self.denom > 0 && self.numer <= self.denom
    }
}

pub open spec fn zero_ratio() -> Ratio {
    Ratio { numer: 0, denom: 1 }
}

pub open spec fn one_ratio() -> Ratio {
    Ratio { numer: 1, denom: 1 }
}

/// The CPU time used over a window, in units of the window: the counter's
/// growth (none when it went backwards, as after a reset) over the elapsed
/// time, and zero when no time elapsed.
pub open spec fn window_ratio(initial: u64, current: u64, elapsed: u64) -> Ratio {
    if elapsed == 0 {
        zero_ratio()
    } else if current >= initial {
        Ratio { numer: (current - initial) as u128, denom: elapsed as u128 }
    } else {
        Ratio { numer: 0, denom: elapsed as u128 }
    }
}

pub fn usage_over_window(initial: u64, current: u64, elapsed: u64) -> (r: Ratio)
    ensures
        r == window_ratio(initial, current, elapsed),
{
    if elapsed == 0 {
        Ratio { numer: 0, denom: 1 }
    } else {
        Ratio { numer: current.saturating_sub(initial) as u128, denom: elapsed as u128 }
    }
}

/// A CPU usage reading together with where it came from.
#[derive(Debug, Clone, Copy, PartialEq, Eq, Structural)]
pub enum CpuUsageValue {
    /// Fully busy cores, from cgroup v2 (1.5 means one and a half cores).
    FromCgroupV2(Ratio),
    /// Fully busy cores, from cgroup v1.
    FromCgroupV1(Ratio),
    /// The busy share of all cores (0 to 1), from procfs; not yet scaled
    /// by the core count.
    FromProc(Ratio),
}

/// CPU usage in fully busy cores, as the product `usage × cores`.
#[derive(Debug, Clone, Copy, PartialEq, Eq, Structural)]
pub struct CoreUsage {
    pub usage: Ratio,
    pub cores: Ratio,
}

impl CpuUsageValue {
    pub open spec fn normalized(self, num_cpus: Option<Ratio>) -> Option<CoreUsage> {
        match self {
            CpuUsageValue::FromCgroupV2(r) => Some(CoreUsage { usage: r, cores: one_ratio() }),
            CpuUsageValue::FromCgroupV1(r) => Some(CoreUsage { usage: r, cores: one_ratio() }),
            CpuUsageValue::FromProc(r) => match num_cpus {
                Some(c) => Some(CoreUsage { usage: r, cores: c }),
                None => None,
            },
        }
    }

    /// Expresses the reading in fully busy cores. A procfs share is scaled
    /// by `num_cpus`, and without a core count there is no figure; cgroup
    /// readings are already in cores and are kept as they are.
    pub fn normalize(self, num_cpus: Option<Ratio>) -> (r: Option<CoreUsage>)
        ensures
            r == self.normalized(num_cpus),
    {
        match self {
            CpuUsageValue::FromCgroupV2(u) => Some(CoreUsage { usage: u, cores: Ratio { numer: 1, denom: 1 } }),
            CpuUsageValue::FromCgroupV1(u) => Some(CoreUsage { usage: u, cores: Ratio { numer: 1, denom: 1 } }),
            CpuUsageValue::FromProc(u) => match num_cpus {
                Some(c) => Some(CoreUsage { usage: u, cores: c }),
                None => None,
            },
        }
    }
}

/// One reading of a cumulative CPU counter; two of them a sampling window
/// apart give a usage figure.
#[derive(Debug, Clone, PartialEq, Eq)]
pub enum CpuSample {
    /// `usage_usec` of cgroup v2's `cpu.stat`, in microseconds.
    CgroupV2Usec(u64),
    /// cgroup v1's `cpuacct.usage`, in nanoseconds.
    CgroupV1Ns(u64),
    /// The counters of the aggregate `cpu` line of `/proc/stat`, in jiffies.
    ProcJiffies(Vec<u64>),
}

/// The cgroup hierarchy that the process lives in.
#[derive(Debug, Clone, Copy, PartialEq, Eq, Structural)]
pub enum CgroupVersion {
    V1,
    V2,
    /// Both hierarchies present, their controllers mixed. `has_v1` and
    /// `has_v2` both hold of it. Record counting (`detect_cgroup_version`)
    /// never yields it, so a hybrid host is currently read as v1.
    V1AndV2,
}

impl CgroupVersion {
    pub fn has_v1(&self) -> (r: bool)
        ensures
            r == (*self == CgroupVersion::V1 || *self == CgroupVersion::V1AndV2),
    {
        match self {
            CgroupVersion::V1 | CgroupVersion::V1AndV2 => true,
            CgroupVersion::V2 => false,
        }
    }

    pub fn has_v2(&self) -> (r: bool)
        ensures
            r == (*self == CgroupVersion::V2 || *self == CgroupVersion::V1AndV2),
    {
        match self {
            CgroupVersion::V2 | CgroupVersion::V1AndV2 => true,
            CgroupVersion::V1 => false,
        }
    }
}

/// Reads the files that the filesystem-backed providers name.
pub trait FileReader {
    /// The first line of the file, with its line ending if it has one.
    fn read_first_line(&self, path: &str) -> Result<String, StatError>;

    /// All lines of the file, without line endings.
    fn read_all_lines(&self, path: &str) -> Result<Vec<String>, StatError>;
}

/// A measurement source: cgroup v2, cgroup v1 or procfs.
pub trait SystemStatsSource {
    /// The number of cores available, possibly fractional.
    fn get_num_cpus(&self) -> Result<Ratio, StatError>;

    /// One reading of the source's cumulative CPU counter.
    fn sample_cpu(&self) -> Result<CpuSample, StatError>;

    fn get_memory_usage_kb(&self) -> Result<u64, StatError>;

    fn get_memory_total_kb(&self) -> Result<u64, StatError>;
}

/// The path of the file `thing`, or an error naming it when the controller
/// that holds it is not mounted.
pub fn get_path_or_croak(path: &Option<String>, thing: ControlFile) -> (r: Result<&String, StatError>)
    ensures
        match path {
            Some(p) => r == Ok::<&String, StatError>(p),
            None => r == Err::<&String, StatError>(StatError::FileNotFound(thing)),
        },
{
    match path {
        Some(p) => Ok(p),
        None => Err(StatError::FileNotFound(thing)),
    }
}

/// `base` joined with the relative file name `name`, as `Path::join` does.
pub open spec fn join_path(base: Seq<char>, name: Seq<char>) -> Seq<char> {
    if base.len() == 0 {
        name
    } else if base.last() == '/' {
        base + name
    } else {
        base + seq!['/'] + name
    }
}

pub fn join(base: &str, name: &str) -> (r: String)
    ensures
        r@ == join_path(base@, name@),
{
    if base.is_empty() {
        return name.to_owned();
    }
    let mut r = base.to_owned();
    let cs = crate::text::chars_of(base);
    if cs[cs.len() - 1] != '/' {
        let sep = "/";
        proof {
            reveal_strlit("/");
        }
        r.append(sep);
    }
    r.append(name);
    r
}

} // verus!
