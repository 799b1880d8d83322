//! The cgroup v2 source: `cpu.max`, `cpu.stat`, `memory.current` and
//! `memory.max` under the unified mount point.
use crate::decimal::{parse_u64, parse_u64_spec};
use crate::stats::{
    join, join_path, usage_over_window, window_ratio, CpuSample, CpuUsageValue, FileReader, Ratio,
    StatError, SystemStatsSource,
};
use crate::text::{
    has_prefix, lemma_words_of_pair, no_space, same_text, split_whitespace, starts_with, trim,
    trimmed, views, words,
};
use vstd::prelude::*;

verus! {

/// Supplies the raw contents of the cgroup v2 files.
pub trait CgroupV2Provider {
    /// The lines of `cpu.stat`.
    fn get_cgroup_v2_cpu_stat(&self) -> Result<Vec<String>, StatError>;

    /// The first line of `cpu.max`.
    fn get_cgroup_v2_cpu_max(&self) -> Result<String, StatError>;

    /// The first line of `memory.current`.
    fn get_cgroup_v2_memory_current(&self) -> Result<String, StatError>;

    /// The first line of `memory.max`.
    fn get_cgroup_v2_memory_max(&self) -> Result<String, StatError>;
}

/// The core count that a `cpu.max` line states: quota over period. A quota
/// of `max` means no limit; a zero period gives no figure.
pub open spec fn cpu_max_cores(text: Seq<char>) -> Result<Ratio, StatError> {
    let w = words(text);
    if w.len() != 2 {
        Err(StatError::InvalidData)
    } else if w[0] == "max"@ {
        Err(StatError::Unlimited)
    } else {
        match (parse_u64_spec(w[0]), parse_u64_spec(w[1])) {
            (Some(q), Some(p)) => if p == 0 {
                Err(StatError::InvalidData)
            } else {
                Ok(Ratio { numer: q as u128, denom: p as u128 })
            },
            _ => Err(StatError::InvalidData),
        }
    }
}

/// The `usage_usec` value of one `cpu.stat` line, if it is such a line.
pub open spec fn usage_usec_of_line(line: Seq<char>) -> Option<u64> {
    if has_prefix(line, "usage_usec"@) && words(line).len() >= 2 {
        parse_u64_spec(words(line)[1])
    } else {
        None
    }
}

/// The first readable `usage_usec` value among the lines.
pub open spec fn first_usage_usec(lines: Seq<Seq<char>>) -> Option<u64>
    decreases lines.len(),
{
    if lines.len() == 0 {
        None
    } else {
        match usage_usec_of_line(lines[0]) {
            Some(v) => Some(v),
            None => first_usage_usec(lines.skip(1)),
        }
    }
}

/// A byte count read from a one-value file, in KiB.
pub open spec fn bytes_as_kb(text: Seq<char>) -> Result<u64, StatError> {
    match parse_u64_spec(trimmed(text)) {
        Some(b) => Ok(b / 1024),
        None => Err(StatError::InvalidData),
    }
}

/// The memory limit of a `memory.max` line in KiB; `max` means no limit.
pub open spec fn memory_max_of(text: Seq<char>) -> Result<u64, StatError> {
    if trimmed(text) == "max"@ {
        Err(StatError::Unlimited)
    } else {
        bytes_as_kb(text)
    }
}

/// A `cpu.max` line whose quota is `max` never yields a core count, whatever
/// its period says.
pub proof fn lemma_max_quota_is_unlimited(period: Seq<char>)
    requires
        period.len() > 0,
        no_space(period),
    ensures
        cpu_max_cores("max"@ + seq![' '] + period) == Err::<Ratio, StatError>(StatError::Unlimited),
{
    reveal_strlit("max");
    assert(no_space("max"@));
    lemma_words_of_pair("max"@, period);
}

/// Reads the core count from the text of `cpu.max`.
pub fn num_cpus_from_cpu_max(text: &str) -> (r: Result<Ratio, StatError>)
    ensures
        r == cpu_max_cores(text@),
{
    let parts = split_whitespace(text);
    proof {
        assert(views(parts@) == words(text@));
    }
    if parts.len() != 2 {
        return Err(StatError::InvalidData);
    }
    proof {
        assert(parts@[0]@ == words(text@)[0]);
        assert(parts@[1]@ == words(text@)[1]);
    }
    if same_text(parts[0].as_str(), "max") {
        return Err(StatError::Unlimited);
    }
    let quota = match parse_u64(parts[0].as_str()) {
        Some(q) => q,
        None => {
            return Err(StatError::InvalidData);
        },
    };
    let period = match parse_u64(parts[1].as_str()) {
        Some(p) => p,
        None => {
            return Err(StatError::InvalidData);
        },
    };
    if period == 0 {
        return Err(StatError::InvalidData);
    }
    Ok(Ratio { numer: quota as u128, denom: period as u128 })
}

/// The number of cores that the cgroup may use.
pub fn get_num_cpus<P: CgroupV2Provider>(provider: &P) -> (r: Result<Ratio, StatError>)
    ensures
        r matches Ok(c) ==> c.denom > 0,
{
    let text = provider.get_cgroup_v2_cpu_max()?;
    num_cpus_from_cpu_max(text.as_str())
}

fn usage_usec_in_line(line: &str) -> (r: Option<u64>)
    ensures
        r == usage_usec_of_line(line@),
{
    if !starts_with(line, "usage_usec") {
        return None;
    }
    let parts = split_whitespace(line);
    proof {
        assert(views(parts@) == words(line@));
    }
    if parts.len() < 2 {
        return None;
    }
    proof {
        assert(parts@[1]@ == words(line@)[1]);
    }
    parse_u64(parts[1].as_str())
}

/// Finds the cumulative `usage_usec` in the lines of `cpu.stat`.
pub fn usage_usec_from_cpu_stat(lines: &Vec<String>) -> (r: Result<u64, StatError>)
    ensures
        r == match first_usage_usec(views(lines@)) {
            Some(v) => Ok::<u64, StatError>(v),
            None => Err(StatError::InvalidData),
        },
{
    let ghost all = views(lines@);
    let mut i: usize = 0;
    proof {
        assert(all.skip(0) =~= all);
    }
    while i < lines.len()
        invariant
            all == views(lines@),
            i <= lines@.len(),
            first_usage_usec(all) == first_usage_usec(all.skip(i as int)),
        decreases lines@.len() - i,
    {
        proof {
            assert(all.skip(i as int)[0] == lines@[i as int]@);
            assert(all.skip(i as int).skip(1) =~= all.skip(i + 1));
        }
        if let Some(v) = usage_usec_in_line(lines[i].as_str()) {
            return Ok(v);
        }
        i = i + 1;
    }
    Err(StatError::InvalidData)
}

/// One reading of the cgroup's cumulative CPU time, in microseconds.
pub fn get_cpu_usage_usec<P: CgroupV2Provider>(provider: &P) -> (r: Result<u64, StatError>) {
    let lines = provider.get_cgroup_v2_cpu_stat()?;
    usage_usec_from_cpu_stat(&lines)
}

/// The usage over a sampling window from two `usage_usec` readings and the
/// wall-clock time between them, all in microseconds.
pub fn get_cpu_usage(initial_usec: u64, current_usec: u64, elapsed_usec: u64) -> (r: CpuUsageValue)
    ensures
        r == CpuUsageValue::FromCgroupV2(window_ratio(initial_usec, current_usec, elapsed_usec)),
{
    CpuUsageValue::FromCgroupV2(usage_over_window(initial_usec, current_usec, elapsed_usec))
}

/// Reads a byte count from a one-value file and converts it to KiB.
pub fn bytes_text_as_kb(text: &str) -> (r: Result<u64, StatError>)
    ensures
        r == bytes_as_kb(text@),
{
    let t = trim(text);
    match parse_u64(t.as_str()) {
        Some(b) => Ok(b / 1024),
        None => Err(StatError::InvalidData),
    }
}

/// Reads the memory limit from the text of `memory.max`.
pub fn memory_max_kb_from(text: &str) -> (r: Result<u64, StatError>)
    ensures
        r == memory_max_of(text@),
{
    let t = trim(text);
    if same_text(t.as_str(), "max") {
        return Err(StatError::Unlimited);
    }
    bytes_text_as_kb(text)
}

/// The memory in use by the cgroup, in KiB.
pub fn get_memory_current_kb<P: CgroupV2Provider>(provider: &P) -> (r: Result<u64, StatError>)
    ensures
        r matches Ok(v) ==> v <= u64::MAX / 1024,
{
    let text = provider.get_cgroup_v2_memory_current()?;
    bytes_text_as_kb(text.as_str())
}

/// The cgroup's memory limit, in KiB.
pub fn get_memory_max_kb<P: CgroupV2Provider>(provider: &P) -> (r: Result<u64, StatError>)
    ensures
        r matches Ok(v) ==> v <= u64::MAX / 1024,
{
    let text = provider.get_cgroup_v2_memory_max()?;
    memory_max_kb_from(text.as_str())
}

/// The paths of `cpu.max`, `cpu.stat`, `memory.current` and `memory.max`
/// under the mount point `base`.
pub open spec fn v2_file_paths(base: Seq<char>) -> Seq<Seq<char>> {
    seq![
        join_path(base, "cpu.max"@),
        join_path(base, "cpu.stat"@),
        join_path(base, "memory.current"@),
        join_path(base, "memory.max"@),
    ]
}

/// The cgroup v2 files under one mount point, read through a `FileReader`.
pub struct CgroupV2FilesystemReader<F> {
    cpu_max_path: String,
    cpu_stat_path: String,
    mem_current_path: String,
    mem_max_path: String,
    files: F,
}

impl<F> View for CgroupV2FilesystemReader<F> {
    /// The paths of `cpu.max`, `cpu.stat`, `memory.current` and `memory.max`.
    type V = Seq<Seq<char>>;

    closed spec fn view(&self) -> Seq<Seq<char>> {
        seq![self.cpu_max_path@, self.cpu_stat_path@, self.mem_current_path@, self.mem_max_path@]
    }
}

impl<F> CgroupV2FilesystemReader<F> {
    pub fn new(cgroup_v2_path: &str, files: F) -> (r: Self)
        ensures
            r@ == v2_file_paths(cgroup_v2_path@),
    {
        CgroupV2FilesystemReader {
            cpu_max_path: join(cgroup_v2_path, "cpu.max"),
            cpu_stat_path: join(cgroup_v2_path, "cpu.stat"),
            mem_current_path: join(cgroup_v2_path, "memory.current"),
            mem_max_path: join(cgroup_v2_path, "memory.max"),
            files,
        }
    }
}

impl<F: FileReader> CgroupV2Provider for CgroupV2FilesystemReader<F> {
    fn get_cgroup_v2_cpu_stat(&self) -> Result<Vec<String>, StatError> {
        self.files.read_all_lines(self.cpu_stat_path.as_str())
    }

    fn get_cgroup_v2_cpu_max(&self) -> Result<String, StatError> {
        self.files.read_first_line(self.cpu_max_path.as_str())
    }

    fn get_cgroup_v2_memory_current(&self) -> Result<String, StatError> {
        self.files.read_first_line(self.mem_current_path.as_str())
    }

    fn get_cgroup_v2_memory_max(&self) -> Result<String, StatError> {
        self.files.read_first_line(self.mem_max_path.as_str())
    }
}

/// The cgroup v2 measurement source.
pub struct CgroupV2Source<P> {
    provider: P,
}

impl<P> CgroupV2Source<P> {
    pub fn new(provider: P) -> (r: Self)
        ensures
            r.provider() == provider,
    {
        CgroupV2Source { provider }
    }

    pub closed spec fn provider(&self) -> P {
        self.provider
    }
}

impl<F> CgroupV2Source<CgroupV2FilesystemReader<F>> {
    /// A source that reads the files under the unified mount point `path`.
    pub fn with_filesystem_reader_at(path: &str, files: F) -> (r: Self)
        ensures
            r.provider()@ == v2_file_paths(path@),
    {
        Self::new(CgroupV2FilesystemReader::new(path, files))
    }
}

impl<P: CgroupV2Provider> SystemStatsSource for CgroupV2Source<P> {
    fn get_num_cpus(&self) -> Result<Ratio, StatError> {
        get_num_cpus(&self.provider)
    }

    fn sample_cpu(&self) -> Result<CpuSample, StatError> {
        let usec = get_cpu_usage_usec(&self.provider)?;
        Ok(CpuSample::CgroupV2Usec(usec))
    }

    fn get_memory_usage_kb(&self) -> Result<u64, StatError> {
        get_memory_current_kb(&self.provider)
    }

    fn get_memory_total_kb(&self) -> Result<u64, StatError> {
        get_memory_max_kb(&self.provider)
    }
}

} // verus!
