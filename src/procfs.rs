//! The procfs source: host-wide figures from `/proc/stat` and `/proc/meminfo`.
use crate::decimal::{is_digit, parse_u64, parse_u64_spec};
use crate::stats::{join, join_path, CpuSample, CpuUsageValue, FileReader, Ratio, StatError, SystemStatsSource, zero_ratio};
use crate::text::{chars_of, has_prefix, split_whitespace, starts_with, views, words};
use vstd::prelude::*;

verus! {

/// Supplies the raw contents of the procfs files.
pub trait ProcProvider {
    /// The lines of `/proc/stat`.
    fn get_proc_stat(&self) -> Result<Vec<String>, StatError>;

    /// The lines of `/proc/meminfo`.
    fn get_proc_meminfo(&self) -> Result<Vec<String>, StatError>;
}

/// A per-core line of `/proc/stat`: `cpu` followed by a digit.
pub open spec fn is_core_line(line: Seq<char>) -> bool {
    has_prefix(line, "cpu"@) && line.len() > 3 && is_digit(line[3])
}

pub open spec fn count_core_lines(lines: Seq<Seq<char>>) -> nat
    decreases lines.len(),
{
    if lines.len() == 0 {
        0
    } else {
        count_core_lines(lines.drop_last()) + if is_core_line(lines.last()) {
            1nat
        } else {
            0nat
        }
    }
}

/// The words that read as `u64`, in order; the others are dropped.
pub open spec fn numeric_words(ws: Seq<Seq<char>>) -> Seq<u64>
    decreases ws.len(),
{
    if ws.len() == 0 {
        Seq::<u64>::empty()
    } else {
        match parse_u64_spec(ws.last()) {
            Some(v) => numeric_words(ws.drop_last()).push(v),
            None => numeric_words(ws.drop_last()),
        }
    }
}

/// The counters of an aggregate `cpu` line: every numeric word after the first.
pub open spec fn jiffies_of(line: Seq<char>) -> Seq<u64> {
    if words(line).len() == 0 {
        Seq::<u64>::empty()
    } else {
        numeric_words(words(line).skip(1))
    }
}

pub open spec fn total(s: Seq<u64>) -> nat
    decreases s.len(),
{
    if s.len() == 0 {
        0
    } else {
        total(s.drop_last()) + s.last() as nat
    }
}

pub open spec fn sat_sub(a: int, b: int) -> nat {
    if a > b {
        (a - b) as nat
    } else {
        0
    }
}

/// The busy share of all cores between two readings of the aggregate `cpu`
/// line: one minus the growth of idle and iowait (fields 4 and 5) over the
/// growth of all counters, and zero when the readings are too short, differ
/// in length, or no time passed. Counters that went backwards count as no
/// growth, and the share is never below zero.
pub open spec fn busy_share(initial: Seq<u64>, current: Seq<u64>) -> Ratio {
    if initial.len() < 5 || current.len() < 5 || initial.len() != current.len() {
        zero_ratio()
    } else {
        let total_delta = sat_sub(total(current) as int, total(initial) as int);
        let vacant_delta = sat_sub(
            current[3] + current[4],
            initial[3] + initial[4],
        );
        if total_delta == 0 {
            zero_ratio()
        } else {
            Ratio { numer: sat_sub(total_delta as int, vacant_delta as int) as u128, denom: total_delta as u128 }
        }
    }
}

/// The number of a `/proc/meminfo` line: its second word, or zero.
pub open spec fn meminfo_value(line: Seq<char>) -> u64 {
    let w = words(line);
    if w.len() >= 2 && parse_u64_spec(w[1]) is Some {
        parse_u64_spec(w[1])->0
    } else {
        0
    }
}

/// Scans `/proc/meminfo` lines for `MemTotal` and `MemAvailable`, stopping
/// once both are non-zero; a later line replaces an earlier value.
pub open spec fn meminfo_scan(lines: Seq<Seq<char>>, total_kb: u64, available_kb: u64) -> (u64, u64)
    decreases lines.len(),
{
    if lines.len() == 0 {
        (total_kb, available_kb)
    } else {
        let line = lines[0];
        let a = if has_prefix(line, "MemAvailable:"@) {
            meminfo_value(line)
        } else {
            available_kb
        };
        let t = if !has_prefix(line, "MemAvailable:"@) && has_prefix(line, "MemTotal:"@) {
            meminfo_value(line)
        } else {
            total_kb
        };
        if t > 0 && a > 0 {
            (t, a)
        } else {
            meminfo_scan(lines.skip(1), t, a)
        }
    }
}

/// Memory in use and in total, in KiB: in use is total less available,
/// and never below zero.
pub open spec fn meminfo_usage_and_total(lines: Seq<Seq<char>>) -> (u64, u64) {
    let (t, a) = meminfo_scan(lines, 0, 0);
    (sat_sub(t as int, a as int) as u64, t)
}

fn is_core_line_text(line: &str) -> (r: bool)
    ensures
        r == is_core_line(line@),
{
    if !starts_with(line, "cpu") {
        return false;
    }
    let cs = chars_of(line);
    if cs.len() <= 3 {
        return false;
    }
    let u = cs[3] as u32;
    48 <= u && u <= 57
}

/// Counts the per-core lines among the lines of `/proc/stat`.
pub fn count_cores(lines: &Vec<String>) -> (r: u64)
    ensures
        r == count_core_lines(views(lines@)),
{
    let ghost all = views(lines@);
    let mut count: u64 = 0;
    let mut i: usize = 0;
    proof {
        assert(all.take(0) =~= Seq::<Seq<char>>::empty());
    }
    while i < lines.len()
        invariant
            all == views(lines@),
            i <= lines@.len(),
            count == count_core_lines(all.take(i as int)),
            count <= i,
        decreases lines@.len() - i,
    {
        let is_core = is_core_line_text(lines[i].as_str());
        proof {
            assert(all.take(i + 1).drop_last() =~= all.take(i as int));
            assert(all.take(i + 1).last() == lines@[i as int]@);
        }
        if is_core {
            count = count + 1;
        }
        i = i + 1;
    }
    proof {
        assert(all.take(lines@.len() as int) =~= all);
    }
    count
}

/// The number of cores of the host, from `/proc/stat`.
pub fn get_cpu_count<R: ProcProvider>(reader: &R) -> (r: Result<u64, StatError>) {
    let lines = reader.get_proc_stat()?;
    Ok(count_cores(&lines))
}

/// The host's core count from the lines of `/proc/stat`: the number of
/// per-core lines, a whole number.
pub fn cores_from_stat(lines: &Vec<String>) -> (r: Ratio)
    ensures
        r == (Ratio { numer: count_core_lines(views(lines@)) as u128, denom: 1 }),
{
    let count = count_cores(lines);
    Ratio { numer: count as u128, denom: 1 }
}

/// The host's core count as a ratio; always a whole number.
pub fn get_num_cpus<R: ProcProvider>(provider: &R) -> (r: Result<Ratio, StatError>)
    ensures
        r matches Ok(c) ==> c.denom == 1,
{
    let lines = provider.get_proc_stat()?;
    Ok(cores_from_stat(&lines))
}

/// Reads the counters of an aggregate `cpu` line.
pub fn jiffies_of_line(line: &str) -> (r: Vec<u64>)
    ensures
        r@ == jiffies_of(line@),
{
    let parts = split_whitespace(line);
    let ghost ws = views(parts@);
    let mut out: Vec<u64> = Vec::new();
    if parts.len() == 0 {
        return out;
    }
    let ghost rest = ws.skip(1);
    let mut i: usize = 1;
    proof {
        assert(rest.take(0) =~= Seq::<Seq<char>>::empty());
    }
    while i < parts.len()
        invariant
            ws == views(parts@),
            ws == words(line@),
            rest == ws.skip(1),
            1 <= i <= parts@.len(),
            out@ == numeric_words(rest.take(i - 1)),
        decreases parts@.len() - i,
    {
        proof {
            assert(rest.take(i as int).drop_last() =~= rest.take(i - 1));
            assert(rest.take(i as int).last() == parts@[i as int]@);
        }
        if let Some(v) = parse_u64(parts[i].as_str()) {
            out.push(v);
        }
        i = i + 1;
    }
    proof {
        assert(rest.take(parts@.len() - 1) =~= rest);
    }
    out
}

/// The counters of the aggregate `cpu` line of `/proc/stat`, the first
/// line; a `/proc/stat` without lines has none.
pub fn jiffies_from_stat(lines: &Vec<String>) -> (r: Result<Vec<u64>, StatError>)
    ensures
        lines@.len() == 0 ==> r == Err::<Vec<u64>, StatError>(StatError::InvalidData),
        lines@.len() > 0 ==> (r matches Ok(j) && j@ == jiffies_of(lines@[0]@)),
{
    if lines.len() == 0 {
        return Err(StatError::InvalidData);
    }
    Ok(jiffies_of_line(lines[0].as_str()))
}

/// The counters of the aggregate `cpu` line, the first line of `/proc/stat`.
pub fn get_total_cpu_jiffies<R: ProcProvider>(provider: &R) -> (r: Result<Vec<u64>, StatError>) {
    let lines = provider.get_proc_stat()?;
    jiffies_from_stat(&lines)
}

/// The sum of the counters of any vector fits in a `u128`.
pub proof fn lemma_total_fits(s: Seq<u64>)
    requires
        s.len() <= usize::MAX,
    ensures
        total(s) <= u128::MAX,
{
    lemma_total_bound(s);
    assert(s.len() * 0xffff_ffff_ffff_ffff <= 0xffff_ffff_ffff_ffff * 0xffff_ffff_ffff_ffff)
        by (nonlinear_arith)
        requires
            s.len() <= 0xffff_ffff_ffff_ffff,
    ;
}

proof fn lemma_total_bound(s: Seq<u64>)
    ensures
        total(s) <= s.len() * 0xffff_ffff_ffff_ffff,
    decreases s.len(),
{
    if s.len() > 0 {
        lemma_total_bound(s.drop_last());
        assert((s.len() - 1) * 0xffff_ffff_ffff_ffff + 0xffff_ffff_ffff_ffff == s.len()
            * 0xffff_ffff_ffff_ffff) by (nonlinear_arith);
    }
}

fn sum_counters(s: &Vec<u64>) -> (r: u128)
    ensures
        r == total(s@),
{
    let mut acc: u128 = 0;
    let mut i: usize = 0;
    proof {
        assert(s@.take(0) =~= Seq::<u64>::empty());
    }
    while i < s.len()
        invariant
            i <= s@.len(),
            acc == total(s@.take(i as int)),
            acc <= i * 0xffff_ffff_ffff_ffff,
        decreases s@.len() - i,
    {
        proof {
            assert(s@.take(i + 1).drop_last() =~= s@.take(i as int));
            assert((i + 1) * 0xffff_ffff_ffff_ffff == i * 0xffff_ffff_ffff_ffff + 0xffff_ffff_ffff_ffff)
                by (nonlinear_arith);
            assert(i * 0xffff_ffff_ffff_ffff < 0x1_0000_0000_0000_0000 * 0xffff_ffff_ffff_ffff)
                by (nonlinear_arith)
                requires
                    i < 0x1_0000_0000_0000_0000,
            ;
        }
        acc = acc + s[i] as u128;
        i = i + 1;
    }
    proof {
        assert(s@.take(s@.len() as int) =~= s@);
    }
    acc
}

/// The busy share of all cores between two readings of the aggregate `cpu` line.
pub fn calculate_cpu_usage(initial: &Vec<u64>, current: &Vec<u64>) -> (r: Ratio)
    ensures
        r == busy_share(initial@, current@),
{
    if initial.len() < 5 || current.len() < 5 || initial.len() != current.len() {
        return Ratio { numer: 0, denom: 1 };
    }
    let initial_total = sum_counters(initial);
    let current_total = sum_counters(current);
    let total_delta = current_total.saturating_sub(initial_total);
    if total_delta == 0 {
        return Ratio { numer: 0, denom: 1 };
    }
    let initial_vacancy = initial[3] as u128 + initial[4] as u128;
    let current_vacancy = current[3] as u128 + current[4] as u128;
    let vacant_delta = current_vacancy.saturating_sub(initial_vacancy);
    Ratio { numer: total_delta.saturating_sub(vacant_delta), denom: total_delta }
}

/// The usage over a sampling window from two readings of the aggregate
/// `cpu` line.
pub fn get_cpu_usage(initial: &Vec<u64>, current: &Vec<u64>) -> (r: CpuUsageValue)
    ensures
        r == CpuUsageValue::FromProc(busy_share(initial@, current@)),
{
    CpuUsageValue::FromProc(calculate_cpu_usage(initial, current))
}

/// Reads the number of a `/proc/meminfo` line, zero when there is none.
pub fn parse_proc_meminfo_value(line: &str) -> (r: u64)
    ensures
        r == meminfo_value(line@),
{
    let parts = split_whitespace(line);
    proof {
        assert(views(parts@) == words(line@));
    }
    if parts.len() >= 2 {
        proof {
            assert(parts@[1]@ == words(line@)[1]);
        }
        if let Some(v) = parse_u64(parts[1].as_str()) {
            return v;
        }
    }
    0
}

/// Memory in use and in total, in KiB, from the lines of `/proc/meminfo`.
pub fn memory_usage_and_total(lines: &Vec<String>) -> (r: (u64, u64))
    ensures
        r == meminfo_usage_and_total(views(lines@)),
{
    let ghost all = views(lines@);
    let mut memory_total_kb: u64 = 0;
    let mut available_kb: u64 = 0;
    let mut i: usize = 0;
    proof {
        assert(all.skip(0) =~= all);
    }
    while i < lines.len()
        invariant_except_break
            all == views(lines@),
            i <= lines@.len(),
            meminfo_scan(all, 0, 0) == meminfo_scan(all.skip(i as int), memory_total_kb, available_kb),
        ensures
            meminfo_scan(all, 0, 0) == (memory_total_kb, available_kb),
        decreases lines@.len() - i,
    {
        let line = lines[i].as_str();
        proof {
            assert(all.skip(i as int)[0] == lines@[i as int]@);
            assert(all.skip(i as int).skip(1) =~= all.skip(i + 1));
        }
        if starts_with(line, "MemAvailable:") {
            available_kb = parse_proc_meminfo_value(line);
        } else if starts_with(line, "MemTotal:") {
            memory_total_kb = parse_proc_meminfo_value(line);
        }
        i = i + 1;
        if memory_total_kb > 0 && available_kb > 0 {
            break;
        }
    }
    (memory_total_kb.saturating_sub(available_kb), memory_total_kb)
}

/// Memory in use and in total of the host, in KiB.
pub fn get_memory_usage_and_total_kb<R: ProcProvider>(provider: &R) -> (r: Result<(u64, u64), StatError>)
    ensures
        r matches Ok((used, all)) ==> used <= all,
{
    let lines = provider.get_proc_meminfo()?;
    Ok(memory_usage_and_total(&lines))
}

/// The procfs files under one procfs root, read through a `FileReader`.
pub struct ProcFilesystemReader<F> {
    proc_path: String,
    files: F,
}

impl<F> ProcFilesystemReader<F> {
    pub fn new(proc_path: String, files: F) -> (r: Self)
        ensures
            r.root() == proc_path@,
    {
        ProcFilesystemReader { proc_path, files }
    }

    pub closed spec fn root(&self) -> Seq<char> {
        self.proc_path@
    }

    pub fn proc_stat_path(&self) -> (r: String)
        ensures
            r@ == join_path(self.root(), "stat"@),
    {
        join(self.proc_path.as_str(), "stat")
    }

    pub fn proc_meminfo_path(&self) -> (r: String)
        ensures
            r@ == join_path(self.root(), "meminfo"@),
    {
        join(self.proc_path.as_str(), "meminfo")
    }
}

impl<F: FileReader> ProcProvider for ProcFilesystemReader<F> {
    fn get_proc_stat(&self) -> Result<Vec<String>, StatError> {
        let path = self.proc_stat_path();
        self.files.read_all_lines(path.as_str())
    }

    fn get_proc_meminfo(&self) -> Result<Vec<String>, StatError> {
        let path = self.proc_meminfo_path();
        self.files.read_all_lines(path.as_str())
    }
}

/// The procfs measurement source, always available.
pub struct ProcSource<P> {
    provider: P,
}

impl<P> ProcSource<P> {
    pub fn new(provider: P) -> (r: Self)
        ensures
            r.provider() == provider,
    {
        ProcSource { provider }
    }

    pub closed spec fn provider(&self) -> P {
        self.provider
    }
}

impl<F> ProcSource<ProcFilesystemReader<F>> {
    /// A source that reads the files under the procfs root `path`.
    pub fn with_filesystem_reader_at(path: String, files: F) -> (r: Self)
        ensures
            r.provider().root() == path@,
    {
        Self::new(ProcFilesystemReader::new(path, files))
    }
}

impl<P: ProcProvider> SystemStatsSource for ProcSource<P> {
    fn get_num_cpus(&self) -> Result<Ratio, StatError> {
        get_num_cpus(&self.provider)
    }

    fn sample_cpu(&self) -> Result<CpuSample, StatError> {
        let jiffies = get_total_cpu_jiffies(&self.provider)?;
        Ok(CpuSample::ProcJiffies(jiffies))
    }

    fn get_memory_usage_kb(&self) -> Result<u64, StatError> {
        let (memory_usage_kb, _) = get_memory_usage_and_total_kb(&self.provider)?;
        Ok(memory_usage_kb)
    }

    fn get_memory_total_kb(&self) -> Result<u64, StatError> {
        let (_, memory_total_kb) = get_memory_usage_and_total_kb(&self.provider)?;
        Ok(memory_total_kb)
    }
}

} // verus!
