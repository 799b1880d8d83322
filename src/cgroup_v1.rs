//! The cgroup v1 source: the `cpu`, `cpuacct` and `memory` controllers,
//! each under its own mount point.
use crate::cgroup_v2::bytes_text_as_kb;
use crate::cgroup_v2::cpu_max_cores;
use crate::decimal::{
    lemma_decimal_round_trip, lemma_to_decimal_digits, parse_i64, parse_i64_spec, parse_u64,
    parse_u64_spec, to_decimal,
};
use crate::stats::{
    get_path_or_croak, join, ControlFile, join_path, usage_over_window, window_ratio, CpuSample,
    CpuUsageValue, FileReader, Ratio, StatError, SystemStatsSource,
};
use crate::text::{
    has_prefix, lemma_trim_no_space, lemma_words_of_pair, no_space, split_whitespace, starts_with,
    trim, trimmed, views, words,
};
use vstd::prelude::*;

verus! {

/// What cgroup v1 reports as a limit when there is none (64-bit kernels).
pub const NO_LIMIT: u64 = 9223372036854771712;

pub open spec fn opt_view(o: Option<String>) -> Option<Seq<char>> {
    match o {
        Some(s) => Some(s@),
        None => None,
    }
}

pub open spec fn opt_join(base: Option<Seq<char>>, name: Seq<char>) -> Option<Seq<char>> {
    match base {
        Some(b) => Some(join_path(b, name)),
        None => None,
    }
}

fn join_opt(base: &Option<String>, name: &str) -> (r: Option<String>)
    ensures
        opt_view(r) == opt_join(opt_view(*base), name@),
{
    match base {
        Some(b) => Some(join(b.as_str(), name)),
        None => None,
    }
}

/// Where the `cpu`, `cpuacct` and `memory` controllers are mounted, with
/// the paths of the files read under each. An absent mount point means the
/// controller is unavailable.
#[derive(Debug, Clone)]
pub struct CgroupV1MountPoints {
    cpu: Option<String>,
    cpuacct: Option<String>,
    memory: Option<String>,
    cpu_quota_path: Option<String>,
    cpu_period_path: Option<String>,
    cpu_usage_path: Option<String>,
    memory_usage_path: Option<String>,
    memory_limit_path: Option<String>,
    memory_stat_path: Option<String>,
}

impl View for CgroupV1MountPoints {
    /// The `cpu`, `cpuacct` and `memory` mount points.
    type V = (Option<Seq<char>>, Option<Seq<char>>, Option<Seq<char>>);

    closed spec fn view(&self) -> Self::V {
        (opt_view(self.cpu), opt_view(self.cpuacct), opt_view(self.memory))
    }
}

impl CgroupV1MountPoints {
    /// The file paths are those of the controller files under the mount points.
    pub closed spec fn wf(&self) -> bool {
        &&& opt_view(self.cpu_quota_path) == opt_join(opt_view(self.cpu), "cpu.cfs_quota_us"@)
        &&& opt_view(self.cpu_period_path) == opt_join(opt_view(self.cpu), "cpu.cfs_period_us"@)
        &&& opt_view(self.cpu_usage_path) == opt_join(opt_view(self.cpuacct), "cpuacct.usage"@)
        &&& opt_view(self.memory_usage_path) == opt_join(
            opt_view(self.memory),
            "memory.usage_in_bytes"@,
        )
        &&& opt_view(self.memory_limit_path) == opt_join(
            opt_view(self.memory),
            "memory.limit_in_bytes"@,
        )
        &&& opt_view(self.memory_stat_path) == opt_join(opt_view(self.memory), "memory.stat"@)
    }

    pub fn new(cpu: Option<String>, cpuacct: Option<String>, memory: Option<String>) -> (r: Self)
        ensures
            r.wf(),
            r@ == (opt_view(cpu), opt_view(cpuacct), opt_view(memory)),
    {
        let mut mount_points = Self::default();
        mount_points.set_cpu(cpu);
        mount_points.set_cpuacct(cpuacct);
        mount_points.set_memory(memory);
        mount_points
    }

    pub fn cpu(&self) -> (r: &Option<String>)
        ensures
            opt_view(*r) == self@.0,
    {
        &self.cpu
    }

    pub fn cpuacct(&self) -> (r: &Option<String>)
        ensures
            opt_view(*r) == self@.1,
    {
        &self.cpuacct
    }

    pub fn memory(&self) -> (r: &Option<String>)
        ensures
            opt_view(*r) == self@.2,
    {
        &self.memory
    }

    pub fn set_cpu(&mut self, cpu: Option<String>)
        requires
            old(self).wf(),
        ensures
            final(self).wf(),
            final(self)@ == (opt_view(cpu), old(self)@.1, old(self)@.2),
    {
        self.cpu_quota_path = join_opt(&cpu, "cpu.cfs_quota_us");
        self.cpu_period_path = join_opt(&cpu, "cpu.cfs_period_us");
        self.cpu = cpu;
    }

    pub fn set_cpuacct(&mut self, cpuacct: Option<String>)
        requires
            old(self).wf(),
        ensures
            final(self).wf(),
            final(self)@ == (old(self)@.0, opt_view(cpuacct), old(self)@.2),
    {
        self.cpu_usage_path = join_opt(&cpuacct, "cpuacct.usage");
        self.cpuacct = cpuacct;
    }

    pub fn set_memory(&mut self, memory: Option<String>)
        requires
            old(self).wf(),
        ensures
            final(self).wf(),
            final(self)@ == (old(self)@.0, old(self)@.1, opt_view(memory)),
    {
        self.memory_usage_path = join_opt(&memory, "memory.usage_in_bytes");
        self.memory_limit_path = join_opt(&memory, "memory.limit_in_bytes");
        self.memory_stat_path = join_opt(&memory, "memory.stat");
        self.memory = memory;
    }
}

impl Default for CgroupV1MountPoints {
    /// No controller mounted.
    fn default() -> (r: Self)
        ensures
            r.wf(),
            r@ == (None::<Seq<char>>, None::<Seq<char>>, None::<Seq<char>>),
    {
        CgroupV1MountPoints {
            cpu: None,
            cpuacct: None,
            memory: None,
            cpu_quota_path: None,
            cpu_period_path: None,
            cpu_usage_path: None,
            memory_usage_path: None,
            memory_limit_path: None,
            memory_stat_path: None,
        }
    }
}

/// Supplies the raw contents of the cgroup v1 files.
pub trait CgroupV1Provider {
    /// The first line of `cpu.cfs_quota_us`.
    fn get_cgroup_v1_cpu_cfs_quota(&self) -> Result<String, StatError>;

    /// The first line of `cpu.cfs_period_us`.
    fn get_cgroup_v1_cpu_cfs_period(&self) -> Result<String, StatError>;

    /// The first line of `cpuacct.usage`.
    fn get_cgroup_v1_cpuacct_usage(&self) -> Result<String, StatError>;

    /// The first line of `memory.usage_in_bytes`.
    fn get_cgroup_v1_memory_usage_in_bytes(&self) -> Result<String, StatError>;

    /// The first line of `memory.limit_in_bytes`.
    fn get_cgroup_v1_memory_limit_in_bytes(&self) -> Result<String, StatError>;

    /// The lines of `memory.stat`.
    fn get_cgroup_v1_memory_stat(&self) -> Result<Vec<String>, StatError>;
}

/// The core count that CFS bandwidth control states: quota over period. A
/// quota of zero or less means no limit; a zero period gives no figure.
pub open spec fn cfs_cores(quota: Seq<char>, period: Seq<char>) -> Result<Ratio, StatError> {
    match parse_i64_spec(trimmed(quota)) {
        None => Err(StatError::InvalidData),
        Some(q) => if q <= 0 {
            Err(StatError::Unlimited)
        } else {
            match parse_u64_spec(trimmed(period)) {
                None => Err(StatError::InvalidData),
                Some(p) => if p == 0 {
                    Err(StatError::InvalidData)
                } else {
                    Ok(Ratio { numer: q as u128, denom: p as u128 })
                },
            }
        },
    }
}

/// A cumulative counter read from a one-value file.
pub open spec fn counter_of(text: Seq<char>) -> Result<u64, StatError> {
    match parse_u64_spec(trimmed(text)) {
        Some(v) => Ok(v),
        None => Err(StatError::InvalidData),
    }
}

/// The `hierarchical_memory_limit` of the lines of `memory.stat`: the first
/// line with that key decides; a value at or above `NO_LIMIT` means none.
pub open spec fn hierarchical_limit_of(lines: Seq<Seq<char>>) -> Result<u64, StatError>
    decreases lines.len(),
{
    if lines.len() == 0 {
        Err(StatError::NotFound)
    } else if has_prefix(lines[0], "hierarchical_memory_limit "@) {
        let w = words(lines[0]);
        if w.len() >= 2 && parse_u64_spec(w[1]) is Some {
            if parse_u64_spec(w[1])->0 >= NO_LIMIT {
                Err(StatError::Unlimited)
            } else {
                Ok(parse_u64_spec(w[1])->0)
            }
        } else {
            Err(StatError::InvalidData)
        }
    } else {
        hierarchical_limit_of(lines.skip(1))
    }
}

/// The limit of `memory.limit_in_bytes`; at or above `NO_LIMIT` there is none.
pub open spec fn limit_in_bytes_of(text: Seq<char>) -> Result<u64, StatError> {
    match parse_u64_spec(trimmed(text)) {
        None => Err(StatError::InvalidData),
        Some(v) => if v >= NO_LIMIT {
            Err(StatError::Unlimited)
        } else {
            Ok(v)
        },
    }
}

/// The memory limit in KiB: the hierarchical limit of `memory.stat` when it
/// is readable and real, else that of `memory.limit_in_bytes`.
pub open spec fn memory_max_choice(
    stat: Result<Seq<Seq<char>>, StatError>,
    limit: Result<Seq<char>, StatError>,
) -> Result<u64, StatError> {
    let first = match stat {
        Ok(lines) => hierarchical_limit_of(lines),
        Err(e) => Err(e),
    };
    match first {
        Ok(v) => Ok(v / 1024),
        Err(_) => match limit {
            Err(e) => Err(e),
            Ok(t) => match limit_in_bytes_of(t) {
                Ok(v) => Ok(v / 1024),
                Err(e) => Err(e),
            },
        },
    }
}

pub open spec fn lines_view(r: Result<Vec<String>, StatError>) -> Result<Seq<Seq<char>>, StatError> {
    match r {
        Ok(v) => Ok(views(v@)),
        Err(e) => Err(e),
    }
}

pub open spec fn text_view(r: Result<String, StatError>) -> Result<Seq<char>, StatError> {
    match r {
        Ok(t) => Ok(t@),
        Err(e) => Err(e),
    }
}

/// The value that cgroup v1 uses for "no limit".
pub fn get_no_limit_value() -> (r: u64)
    ensures
        r == NO_LIMIT,
{
    NO_LIMIT
}

/// Reads the core count from the texts of `cpu.cfs_quota_us` and `cpu.cfs_period_us`.
pub fn num_cpus_from_cfs(quota_text: &str, period_text: &str) -> (r: Result<Ratio, StatError>)
    ensures
        r == cfs_cores(quota_text@, period_text@),
{
    let q = trim(quota_text);
    let quota = match parse_i64(q.as_str()) {
        Some(v) => v,
        None => {
            return Err(StatError::InvalidData);
        },
    };
    if quota <= 0 {
        return Err(StatError::Unlimited);
    }
    let p = trim(period_text);
    let period = match parse_u64(p.as_str()) {
        Some(v) => v,
        None => {
            return Err(StatError::InvalidData);
        },
    };
    if period == 0 {
        return Err(StatError::InvalidData);
    }
    Ok(Ratio { numer: quota as u128, denom: period as u128 })
}

/// The number of cores that the cgroup may use.
pub fn get_num_cpus<P: CgroupV1Provider>(provider: &P) -> (r: Result<Ratio, StatError>)
    ensures
        r matches Ok(c) ==> c.denom > 0,
{
    let quota_text = provider.get_cgroup_v1_cpu_cfs_quota()?;
    let period_text = provider.get_cgroup_v1_cpu_cfs_period()?;
    num_cpus_from_cfs(quota_text.as_str(), period_text.as_str())
}

/// Reads a cumulative counter from the text of a one-value file.
pub fn counter_from_text(text: &str) -> (r: Result<u64, StatError>)
    ensures
        r == counter_of(text@),
{
    let t = trim(text);
    match parse_u64(t.as_str()) {
        Some(v) => Ok(v),
        None => Err(StatError::InvalidData),
    }
}

/// One reading of the cgroup's cumulative CPU time, in nanoseconds.
pub fn get_cpu_usage_ns<P: CgroupV1Provider>(provider: &P) -> (r: Result<u64, StatError>) {
    let text = provider.get_cgroup_v1_cpuacct_usage()?;
    counter_from_text(text.as_str())
}

/// The usage over a sampling window from two `cpuacct.usage` readings and
/// the wall-clock time between them, all in nanoseconds.
pub fn get_cpu_usage(initial_ns: u64, current_ns: u64, elapsed_ns: u64) -> (r: CpuUsageValue)
    ensures
        r == CpuUsageValue::FromCgroupV1(window_ratio(initial_ns, current_ns, elapsed_ns)),
{
    CpuUsageValue::FromCgroupV1(usage_over_window(initial_ns, current_ns, elapsed_ns))
}

/// The memory in use by the cgroup, in KiB.
pub fn get_memory_usage_kb<P: CgroupV1Provider>(provider: &P) -> (r: Result<u64, StatError>)
    ensures
        r matches Ok(v) ==> v <= u64::MAX / 1024,
{
    let text = provider.get_cgroup_v1_memory_usage_in_bytes()?;
    bytes_text_as_kb(text.as_str())
}

fn hierarchical_limit_in_line(line: &str) -> (r: Option<Result<u64, StatError>>)
    ensures
        !has_prefix(line@, "hierarchical_memory_limit "@) ==> r is None,
        has_prefix(line@, "hierarchical_memory_limit "@) ==> r == Some(
            hierarchical_limit_of(seq![line@]),
        ),
{
    if !starts_with(line, "hierarchical_memory_limit ") {
        return None;
    }
    let parts = split_whitespace(line);
    proof {
        assert(views(parts@) == words(line@));
        assert(seq![line@][0] == line@);
    }
    if parts.len() >= 2 {
        proof {
            assert(parts@[1]@ == words(line@)[1]);
        }
        if let Some(v) = parse_u64(parts[1].as_str()) {
            if v >= NO_LIMIT {
                return Some(Err(StatError::Unlimited));
            }
            return Some(Ok(v));
        }
    }
    Some(Err(StatError::InvalidData))
}

/// Finds `hierarchical_memory_limit` in the lines of `memory.stat`.
pub fn get_hierarchical_memory_limit(lines: &Vec<String>) -> (r: Result<u64, StatError>)
    ensures
        r == hierarchical_limit_of(views(lines@)),
{
    let ghost all = views(lines@);
    let mut i: usize = 0;
    proof {
        assert(all.skip(0) =~= all);
    }
    while i < lines.len()
        invariant
            all == views(lines@),
            i <= lines@.len(),
            hierarchical_limit_of(all) == hierarchical_limit_of(all.skip(i as int)),
        decreases lines@.len() - i,
    {
        proof {
            assert(all.skip(i as int)[0] == lines@[i as int]@);
            assert(all.skip(i as int).skip(1) =~= all.skip(i + 1));
        }
        if let Some(found) = hierarchical_limit_in_line(lines[i].as_str()) {
            return found;
        }
        i = i + 1;
    }
    Err(StatError::NotFound)
}

/// Reads the limit from the text of `memory.limit_in_bytes`.
pub fn memory_limit_from_text(text: &str) -> (r: Result<u64, StatError>)
    ensures
        r == limit_in_bytes_of(text@),
{
    let t = trim(text);
    match parse_u64(t.as_str()) {
        None => Err(StatError::InvalidData),
        Some(v) => if v >= NO_LIMIT {
            Err(StatError::Unlimited)
        } else {
            Ok(v)
        },
    }
}

/// The memory limit in KiB from what was read of `memory.stat` and of
/// `memory.limit_in_bytes`.
pub fn resolve_memory_max_kb(
    stat: &Result<Vec<String>, StatError>,
    limit: &Result<String, StatError>,
) -> (r: Result<u64, StatError>)
    ensures
        r == memory_max_choice(lines_view(*stat), text_view(*limit)),
{
    if let Ok(lines) = stat {
        if let Ok(v) = get_hierarchical_memory_limit(lines) {
            return Ok(v / 1024);
        }
    }
    match limit {
        Err(e) => Err(*e),
        Ok(t) => match memory_limit_from_text(t.as_str()) {
            Ok(v) => Ok(v / 1024),
            Err(e) => Err(e),
        },
    }
}

proof fn lemma_hierarchical_below_sentinel(lines: Seq<Seq<char>>)
    ensures
        hierarchical_limit_of(lines) matches Ok(v) ==> v < NO_LIMIT,
    decreases lines.len(),
{
    if lines.len() > 0 && !has_prefix(lines[0], "hierarchical_memory_limit "@) {
        lemma_hierarchical_below_sentinel(lines.skip(1));
    }
}

proof fn lemma_kb_below_sentinel(v: u64)
    requires
        v < NO_LIMIT,
    ensures
        (v / 1024) * 1024 < NO_LIMIT,
{
    assert((v / 1024) * 1024 <= v) by (nonlinear_arith);
}

/// The cgroup's memory limit in KiB; `memory.limit_in_bytes` is read only
/// when `memory.stat` gives no real limit.
pub fn get_memory_max_kb<P: CgroupV1Provider>(provider: &P) -> (r: Result<u64, StatError>)
    ensures
        r matches Ok(v) ==> v * 1024 < NO_LIMIT,
{
    let stat = provider.get_cgroup_v1_memory_stat();
    if let Ok(lines) = &stat {
        if let Ok(v) = get_hierarchical_memory_limit(lines) {
            proof {
                lemma_hierarchical_below_sentinel(views(lines@));
                lemma_kb_below_sentinel(v);
            }
            return Ok(v / 1024);
        }
    }
    let limit = provider.get_cgroup_v1_memory_limit_in_bytes();
    let r = resolve_memory_max_kb(&stat, &limit);
    proof {
        if let Ok(lines) = stat {
            lemma_hierarchical_below_sentinel(views(lines@));
        }
        if let Ok(t) = limit {
            if let Ok(v) = limit_in_bytes_of(t@) {
                lemma_kb_below_sentinel(v);
            }
        }
    }
    r
}

/// The law of the memory-limit fallback: a real hierarchical limit wins;
/// otherwise `memory.limit_in_bytes` decides; there is no figure only when
/// neither source gives a real limit.
pub proof fn lemma_memory_limit_preference(
    stat: Result<Seq<Seq<char>>, StatError>,
    limit: Result<Seq<char>, StatError>,
)
    ensures
        (stat matches Ok(lines) && hierarchical_limit_of(lines) is Ok) ==> memory_max_choice(
            stat,
            limit,
        ) == Ok::<u64, StatError>(hierarchical_limit_of(stat->Ok_0)->Ok_0 / 1024),
        !(stat matches Ok(lines) && hierarchical_limit_of(lines) is Ok) ==> memory_max_choice(
            stat,
            limit,
        ) == match limit {
            Ok(t) => match limit_in_bytes_of(t) {
                Ok(v) => Ok(v / 1024),
                Err(e) => Err(e),
            },
            Err(e) => Err(e),
        },
        memory_max_choice(stat, limit) is Err <==> (!(stat matches Ok(lines)
            && hierarchical_limit_of(lines) is Ok) && !(limit matches Ok(t) && limit_in_bytes_of(
            t,
        ) is Ok)),
{
}

/// Both cgroup versions state the core count as exactly quota over period,
/// fractions included: for a `cpu.max` line `<quota> <period>`, and for the
/// two CFS files (whose quota is an `i64`).
pub proof fn lemma_core_count_is_quota_over_period(quota: u64, period: u64)
    requires
        quota > 0,
        period > 0,
    ensures
        cpu_max_cores(to_decimal(quota as nat) + seq![' '] + to_decimal(period as nat)) == Ok::<
            Ratio,
            StatError,
        >(Ratio { numer: quota as u128, denom: period as u128 }),
        quota <= i64::MAX ==> cfs_cores(to_decimal(quota as nat), to_decimal(period as nat)) == Ok::<
            Ratio,
            StatError,
        >(Ratio { numer: quota as u128, denom: period as u128 }),
{
    let q = to_decimal(quota as nat);
    let p = to_decimal(period as nat);
    lemma_decimal_round_trip(quota as nat);
    lemma_decimal_round_trip(period as nat);
    lemma_to_decimal_digits(quota as nat);
    lemma_to_decimal_digits(period as nat);
    assert(no_space(q));
    assert(no_space(p));
    lemma_words_of_pair(q, p);
    reveal_strlit("max");
    assert(q[0] != 'm');
    assert(q != "max"@);
    lemma_trim_no_space(q);
    lemma_trim_no_space(p);
}

/// The cgroup v1 controller files, read through a `FileReader`.
pub struct CgroupV1FilesystemReader<F> {
    mount_points: CgroupV1MountPoints,
    files: F,
}

impl<F> CgroupV1FilesystemReader<F> {
    pub fn new(mount_points: CgroupV1MountPoints, files: F) -> (r: Self)
        ensures
            r.mount_points() == mount_points,
    {
        CgroupV1FilesystemReader { mount_points, files }
    }

    pub closed spec fn mount_points(&self) -> CgroupV1MountPoints {
        self.mount_points
    }
}

impl<F: FileReader> CgroupV1Provider for CgroupV1FilesystemReader<F> {
    fn get_cgroup_v1_cpu_cfs_quota(&self) -> Result<String, StatError> {
        let path = get_path_or_croak(&self.mount_points.cpu_quota_path, ControlFile::CpuCfsQuotaUs)?;
        self.files.read_first_line(path.as_str())
    }

    fn get_cgroup_v1_cpu_cfs_period(&self) -> Result<String, StatError> {
        let path = get_path_or_croak(&self.mount_points.cpu_period_path, ControlFile::CpuCfsPeriodUs)?;
        self.files.read_first_line(path.as_str())
    }

    fn get_cgroup_v1_cpuacct_usage(&self) -> Result<String, StatError> {
        let path = get_path_or_croak(&self.mount_points.cpu_usage_path, ControlFile::CpuacctUsage)?;
        self.files.read_first_line(path.as_str())
    }

    fn get_cgroup_v1_memory_usage_in_bytes(&self) -> Result<String, StatError> {
        let path = get_path_or_croak(&self.mount_points.memory_usage_path, ControlFile::MemoryUsageInBytes)?;
        self.files.read_first_line(path.as_str())
    }

    fn get_cgroup_v1_memory_limit_in_bytes(&self) -> Result<String, StatError> {
        let path = get_path_or_croak(&self.mount_points.memory_limit_path, ControlFile::MemoryLimitInBytes)?;
        self.files.read_first_line(path.as_str())
    }

    fn get_cgroup_v1_memory_stat(&self) -> Result<Vec<String>, StatError> {
        let path = get_path_or_croak(&self.mount_points.memory_stat_path, ControlFile::MemoryStat)?;
        self.files.read_all_lines(path.as_str())
    }
}

/// The cgroup v1 measurement source.
pub struct CgroupV1Source<P> {
    provider: P,
}

impl<P> CgroupV1Source<P> {
    pub fn new(provider: P) -> (r: Self)
        ensures
            r.provider() == provider,
    {
        CgroupV1Source { provider }
    }

    pub closed spec fn provider(&self) -> P {
        self.provider
    }
}

impl<F> CgroupV1Source<CgroupV1FilesystemReader<F>> {
    /// A source that reads the controller files under `mount_points`.
    pub fn with_filesystem_reader_at(mount_points: CgroupV1MountPoints, files: F) -> (r: Self)
        ensures
            r.provider().mount_points() == mount_points,
    {
        Self::new(CgroupV1FilesystemReader::new(mount_points, files))
    }
}

impl<P: CgroupV1Provider> SystemStatsSource for CgroupV1Source<P> {
    fn get_num_cpus(&self) -> Result<Ratio, StatError> {
        get_num_cpus(&self.provider)
    }

    fn sample_cpu(&self) -> Result<CpuSample, StatError> {
        let ns = get_cpu_usage_ns(&self.provider)?;
        Ok(CpuSample::CgroupV1Ns(ns))
    }

    fn get_memory_usage_kb(&self) -> Result<u64, StatError> {
        get_memory_usage_kb(&self.provider)
    }

    fn get_memory_total_kb(&self) -> Result<u64, StatError> {
        get_memory_max_kb(&self.provider)
    }
}

} // verus!
