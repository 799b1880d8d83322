//! Choosing among the measurement sources, turning two CPU readings into a
//! usage figure, and assembling one record per sampling interval.
use crate::cgroup_v1::{self, CgroupV1FilesystemReader, CgroupV1Source};
use crate::cgroup_v2::{self, v2_file_paths, CgroupV2FilesystemReader, CgroupV2Source};
use crate::gpu::GpuStats;
use crate::paths::{
    controller_mount_of, get_cgroup_v1_mount_points, get_cgroup_v2_mount_point, v2_mount_of,
    version_of,
};
use crate::procfs::{self, busy_share, ProcFilesystemReader, ProcSource};
use crate::stats::{
    window_ratio, CgroupVersion, CoreUsage, CpuSample, CpuUsageValue,
    FileReader, Ratio, StatError, SystemStatsSource, one_ratio,
};
use crate::text::lines_of;
use vstd::prelude::*;

verus! {

/// One of the three sources, each reading its files through `F`.
pub enum Source<F> {
    CgroupV2(CgroupV2Source<CgroupV2FilesystemReader<F>>),
    CgroupV1(CgroupV1Source<CgroupV1FilesystemReader<F>>),
    Proc(ProcSource<ProcFilesystemReader<F>>),
}

/// Which of the three sources a `Source` is.
#[derive(Debug, Clone, Copy, PartialEq, Eq, Structural)]
pub enum SourceKind {
    CgroupV2,
    CgroupV1,
    Proc,
}

impl<F> Source<F> {
    pub open spec fn kind(&self) -> SourceKind {
        match self {
            Source::CgroupV2(_) => SourceKind::CgroupV2,
            Source::CgroupV1(_) => SourceKind::CgroupV1,
            Source::Proc(_) => SourceKind::Proc,
        }
    }
}

impl<F: FileReader> SystemStatsSource for Source<F> {
    fn get_num_cpus(&self) -> Result<Ratio, StatError> {
        match self {
            Source::CgroupV2(s) => s.get_num_cpus(),
            Source::CgroupV1(s) => s.get_num_cpus(),
            Source::Proc(s) => s.get_num_cpus(),
        }
    }

    fn sample_cpu(&self) -> Result<CpuSample, StatError> {
        match self {
            Source::CgroupV2(s) => s.sample_cpu(),
            Source::CgroupV1(s) => s.sample_cpu(),
            Source::Proc(s) => s.sample_cpu(),
        }
    }

    fn get_memory_usage_kb(&self) -> Result<u64, StatError> {
        match self {
            Source::CgroupV2(s) => s.get_memory_usage_kb(),
            Source::CgroupV1(s) => s.get_memory_usage_kb(),
            Source::Proc(s) => s.get_memory_usage_kb(),
        }
    }

    fn get_memory_total_kb(&self) -> Result<u64, StatError> {
        match self {
            Source::CgroupV2(s) => s.get_memory_total_kb(),
            Source::CgroupV1(s) => s.get_memory_total_kb(),
            Source::Proc(s) => s.get_memory_total_kb(),
        }
    }
}

pub open spec fn source_kinds<F>(sources: Seq<Source<F>>) -> Seq<SourceKind> {
    sources.map_values(|s: Source<F>| s.kind())
}

pub open spec fn has_v2_spec(v: CgroupVersion) -> bool {
    v == CgroupVersion::V2 || v == CgroupVersion::V1AndV2
}

pub open spec fn has_v1_spec(v: CgroupVersion) -> bool {
    v == CgroupVersion::V1 || v == CgroupVersion::V1AndV2
}

/// The sources to consult, in priority order: cgroup v2 when the host uses
/// it and its mount point is known, then cgroup v1 when the host uses it and
/// the mount table was read, then procfs always.
pub open spec fn source_plan(self_cgroup: Option<Seq<char>>, mounts: Option<Seq<char>>) -> Seq<SourceKind> {
    let version = match self_cgroup {
        Some(c) => match version_of(c) {
            Ok(v) => Some(v),
            Err(_) => None,
        },
        None => None,
    };
    let v2 = match (version, mounts) {
        (Some(v), Some(m)) => has_v2_spec(v) && v2_mount_of(lines_of(m)) is Some,
        _ => false,
    };
    let v1 = match (version, mounts) {
        (Some(v), Some(_)) => has_v1_spec(v),
        _ => false,
    };
    (if v2 { seq![SourceKind::CgroupV2] } else { Seq::<SourceKind>::empty() }) + (if v1 {
        seq![SourceKind::CgroupV1]
    } else {
        Seq::<SourceKind>::empty()
    }) + seq![SourceKind::Proc]
}

/// Whether a source reads the files that the mount table and the procfs
/// root assign to its kind.
pub open spec fn reads_planned_files<F>(s: Source<F>, mounts: Seq<char>, proc_root: Seq<char>) -> bool {
    let lines = lines_of(mounts);
    match s {
        Source::CgroupV2(src) => src.provider()@ == v2_file_paths(v2_mount_of(lines)->0),
        Source::CgroupV1(src) => src.provider().mount_points()@ == (
            controller_mount_of(lines, "cpu"@),
            controller_mount_of(lines, "cpuacct"@),
            controller_mount_of(lines, "memory"@),
        ) && src.provider().mount_points().wf(),
        Source::Proc(src) => src.provider().root() == proc_root,
    }
}

/// Builds the ordered list of sources from the texts of `/proc/self/cgroup`
/// and `/proc/mounts` (`None` where they could not be read), with procfs
/// rooted at `proc_root`.
pub fn get_sources<F: Clone>(
    self_cgroup: Option<&str>,
    mounts: Option<&str>,
    proc_root: &str,
    files: F,
) -> (r: Vec<Source<F>>)
    ensures
        source_kinds(r@) == source_plan(
            match self_cgroup {
                Some(c) => Some(c@),
                None => None,
            },
            match mounts {
                Some(m) => Some(m@),
                None => None,
            },
        ),
        forall|i: int|
            0 <= i < r@.len() ==> reads_planned_files(
                #[trigger] r@[i],
                match mounts {
                    Some(m) => m@,
                    None => Seq::<char>::empty(),
                },
                proc_root@,
            ),
{
    let ghost m_text = match mounts {
        Some(m) => m@,
        None => Seq::<char>::empty(),
    };
    let mut sources: Vec<Source<F>> = Vec::new();
    let version = match self_cgroup {
        Some(c) => match crate::paths::detect_cgroup_version(c) {
            Ok(v) => Some(v),
            Err(_) => None,
        },
        None => None,
    };
    if let (Some(v), Some(m)) = (version, mounts) {
        if v.has_v2() {
            if let Ok(mount_point) = get_cgroup_v2_mount_point(m) {
                sources.push(
                    Source::CgroupV2(
                        CgroupV2Source::with_filesystem_reader_at(mount_point.as_str(), files.clone()),
                    ),
                );
            }
        }
    }
    proof {
        assert(forall|i: int|
            0 <= i < sources@.len() ==> reads_planned_files(#[trigger] sources@[i], m_text, proc_root@));
    }
    if let (Some(v), Some(m)) = (version, mounts) {
        if v.has_v1() {
            let mount_points = get_cgroup_v1_mount_points(m);
            let ghost before = sources@;
            sources.push(
                Source::CgroupV1(CgroupV1Source::with_filesystem_reader_at(mount_points, files.clone())),
            );
            proof {
                assert forall|i: int| 0 <= i < sources@.len() implies reads_planned_files(
                    #[trigger] sources@[i],
                    m_text,
                    proc_root@,
                ) by {
                    if i < before.len() {
                        assert(sources@[i] == before[i]);
                    }
                }
            }
        }
    }
    let ghost before = sources@;
    sources.push(Source::Proc(ProcSource::with_filesystem_reader_at(proc_root.to_owned(), files)));
    proof {
        assert forall|i: int| 0 <= i < sources@.len() implies reads_planned_files(
            #[trigger] sources@[i],
            m_text,
            proc_root@,
        ) by {
            if i < before.len() {
                assert(sources@[i] == before[i]);
            }
        }
        assert(source_kinds(sources@) =~= source_plan(
            match self_cgroup {
                Some(c) => Some(c@),
                None => None,
            },
            match mounts {
                Some(m) => Some(m@),
                None => None,
            },
        ));
    }
    sources
}

/// The first `Ok` value among the results, `None` if there is none.
pub open spec fn first_ok<T>(rs: Seq<Result<T, StatError>>) -> Option<T>
    decreases rs.len(),
{
    if rs.len() == 0 {
        None
    } else {
        match first_ok(rs.drop_last()) {
            Some(v) => Some(v),
            None => match rs.last() {
                Ok(v) => Some(v),
                Err(_) => None,
            },
        }
    }
}

/// The position of the first `Ok` among the results, `None` if there is none.
pub open spec fn first_ok_index<T>(rs: Seq<Result<T, StatError>>) -> Option<int>
    decreases rs.len(),
{
    if rs.len() == 0 {
        None
    } else {
        match first_ok_index(rs.drop_last()) {
            Some(k) => Some(k),
            None => if rs.last() is Ok {
                Some(rs.len() - 1)
            } else {
                None
            },
        }
    }
}

/// The value of the first result that succeeded.
pub fn first_ok_of<T: Copy>(rs: &Vec<Result<T, StatError>>) -> (r: Option<T>)
    ensures
        r == first_ok(rs@),
{
    let mut i: usize = 0;
    proof {
        assert(rs@.take(0) =~= Seq::<Result<T, StatError>>::empty());
    }
    while i < rs.len()
        invariant
            i <= rs@.len(),
            first_ok(rs@.take(i as int)) is None,
        decreases rs@.len() - i,
    {
        proof {
            assert(rs@.take(i + 1).drop_last() =~= rs@.take(i as int));
        }
        if let Ok(v) = &rs[i] {
            proof {
                lemma_first_ok_prefix(rs@, i + 1);
            }
            return Some(*v);
        }
        i = i + 1;
    }
    proof {
        assert(rs@.take(rs@.len() as int) =~= rs@);
    }
    None
}

/// Once some result has succeeded, later results do not change the answer.
proof fn lemma_first_ok_prefix<T>(rs: Seq<Result<T, StatError>>, k: int)
    requires
        0 <= k <= rs.len(),
        first_ok(rs.take(k)) is Some,
    ensures
        first_ok(rs) == first_ok(rs.take(k)),
    decreases rs.len(),
{
    if k < rs.len() {
        assert(rs.drop_last().take(k) =~= rs.take(k));
        lemma_first_ok_prefix(rs.drop_last(), k);
    } else {
        assert(rs.take(k) =~= rs);
    }
}

/// What a selection over the sources answers: the first `Ok` of the results
/// it probed, which are those of the sources in order up to the first
/// success, or of all sources when none succeeded.
pub open spec fn selected<T>(r: Option<T>, probed: Seq<Result<T, StatError>>, n: nat) -> bool {
    &&& r == first_ok(probed)
    &&& probed.len() <= n
    &&& r is None ==> probed.len() == n
    &&& r is Some ==> probed.len() > 0 && probed.last() is Ok
}

/// The core count from the first source that has one, with the results
/// of the sources asked.
pub fn select_num_cpus<S: SystemStatsSource>(sources: &Vec<S>) -> (r: (
    Option<Ratio>,
    Vec<Result<Ratio, StatError>>,
))
    ensures
        selected(r.0, r.1@, sources@.len()),
{
    let mut probed: Vec<Result<Ratio, StatError>> = Vec::new();
    let mut i: usize = 0;
    while i < sources.len()
        invariant
            i <= sources@.len(),
            probed@.len() == i,
            first_ok(probed@) is None,
        decreases sources@.len() - i,
    {
        let result = sources[i].get_num_cpus();
        let ghost before = probed@;
        probed.push(result);
        proof {
            assert(probed@.drop_last() =~= before);
        }
        if let Ok(n) = result {
            return (Some(n), probed);
        }
        i = i + 1;
    }
    (None, probed)
}

/// The memory in use from the first source that has a figure, with the
/// results of the sources asked.
pub fn select_memory_usage_kb<S: SystemStatsSource>(sources: &Vec<S>) -> (r: (
    Option<u64>,
    Vec<Result<u64, StatError>>,
))
    ensures
        selected(r.0, r.1@, sources@.len()),
{
    let mut probed: Vec<Result<u64, StatError>> = Vec::new();
    let mut i: usize = 0;
    while i < sources.len()
        invariant
            i <= sources@.len(),
            probed@.len() == i,
            first_ok(probed@) is None,
        decreases sources@.len() - i,
    {
        let result = sources[i].get_memory_usage_kb();
        let ghost before = probed@;
        probed.push(result);
        proof {
            assert(probed@.drop_last() =~= before);
        }
        if let Ok(v) = result {
            return (Some(v), probed);
        }
        i = i + 1;
    }
    (None, probed)
}

/// The memory limit from the first source that has a figure, with the
/// results of the sources asked.
pub fn select_memory_total_kb<S: SystemStatsSource>(sources: &Vec<S>) -> (r: (
    Option<u64>,
    Vec<Result<u64, StatError>>,
))
    ensures
        selected(r.0, r.1@, sources@.len()),
{
    let mut probed: Vec<Result<u64, StatError>> = Vec::new();
    let mut i: usize = 0;
    while i < sources.len()
        invariant
            i <= sources@.len(),
            probed@.len() == i,
            first_ok(probed@) is None,
        decreases sources@.len() - i,
    {
        let result = sources[i].get_memory_total_kb();
        let ghost before = probed@;
        probed.push(result);
        proof {
            assert(probed@.drop_last() =~= before);
        }
        if let Ok(v) = result {
            return (Some(v), probed);
        }
        i = i + 1;
    }
    (None, probed)
}

/// The first CPU reading among the sources from index `from` on: the
/// results of the sources asked, in order, and the position among them of
/// the first success. The source that gave it is `sources[from + k]`.
pub fn select_cpu_sample<S: SystemStatsSource>(sources: &Vec<S>, from: usize) -> (r: (
    Option<usize>,
    Vec<Result<CpuSample, StatError>>,
))
    ensures
        from <= sources@.len() ==> (match r.0 {
            Some(k) => Some(k as int) == first_ok_index(r.1@) && k + 1 == r.1@.len() && r.1@.last() is Ok,
            None => first_ok_index(r.1@) is None && r.1@.len() == sources@.len() - from,
        }),
        from > sources@.len() ==> r.0 is None && r.1@.len() == 0,
{
    let mut probed: Vec<Result<CpuSample, StatError>> = Vec::new();
    if from > sources.len() {
        return (None, probed);
    }
    let mut i: usize = from;
    while i < sources.len()
        invariant
            from <= i <= sources@.len(),
            probed@.len() == i - from,
            first_ok_index(probed@) is None,
        decreases sources@.len() - i,
    {
        let result = sources[i].sample_cpu();
        let ok = result.is_ok();
        let ghost before = probed@;
        probed.push(result);
        proof {
            assert(probed@.drop_last() =~= before);
        }
        if ok {
            return (Some(i - from), probed);
        }
        i = i + 1;
    }
    (None, probed)
}

/// One interval's record from the sources: the core count is the first
/// `Ok` among `num_cpus_probed`, and the memory figures are each the first
/// `Ok` among the sources, asked here in order. Returns the record with
/// the memory results probed.
pub fn collect_stats_entry<S: SystemStatsSource>(
    sources: &Vec<S>,
    time_ms: u64,
    num_cpus_probed: &Vec<Result<Ratio, StatError>>,
    cpu_usage: Option<CpuUsageValue>,
    gpu: Option<GpuStats>,
) -> (r: (StatsEntry, Vec<Result<u64, StatError>>, Vec<Result<u64, StatError>>))
    ensures
        r.0 == entry_of(
            time_ms,
            first_ok(num_cpus_probed@),
            cpu_usage,
            first_ok(r.1@),
            first_ok(r.2@),
            gpu,
        ),
        selected(first_ok(r.1@), r.1@, sources@.len()),
        selected(first_ok(r.2@), r.2@, sources@.len()),
{
    let num_cpus = first_ok_of(num_cpus_probed);
    let (memory_usage_kb, usage_probed) = select_memory_usage_kb(sources);
    let (memory_total_kb, total_probed) = select_memory_total_kb(sources);
    let entry = assemble_stats_entry(time_ms, num_cpus, cpu_usage, memory_usage_kb, memory_total_kb, gpu);
    (entry, usage_probed, total_probed)
}

/// The usage that two readings of one source give over a window of
/// `elapsed_ns` nanoseconds; readings of different kinds give no figure.
pub open spec fn usage_between(initial: CpuSample, current: CpuSample, elapsed_ns: u64) -> Result<CpuUsageValue, StatError> {
    match (initial, current) {
        (CpuSample::CgroupV2Usec(a), CpuSample::CgroupV2Usec(b)) => Ok(
            CpuUsageValue::FromCgroupV2(window_ratio(a, b, elapsed_ns / 1000)),
        ),
        (CpuSample::CgroupV1Ns(a), CpuSample::CgroupV1Ns(b)) => Ok(
            CpuUsageValue::FromCgroupV1(window_ratio(a, b, elapsed_ns)),
        ),
        (CpuSample::ProcJiffies(a), CpuSample::ProcJiffies(b)) => Ok(
            CpuUsageValue::FromProc(busy_share(a@, b@)),
        ),
        _ => Err(StatError::InvalidData),
    }
}

pub fn cpu_usage_between(initial: &CpuSample, current: &CpuSample, elapsed_ns: u64) -> (r: Result<CpuUsageValue, StatError>)
    ensures
        r == usage_between(*initial, *current, elapsed_ns),
{
    match (initial, current) {
        (CpuSample::CgroupV2Usec(a), CpuSample::CgroupV2Usec(b)) => Ok(
            cgroup_v2::get_cpu_usage(*a, *b, elapsed_ns / 1000),
        ),
        (CpuSample::CgroupV1Ns(a), CpuSample::CgroupV1Ns(b)) => Ok(
            cgroup_v1::get_cpu_usage(*a, *b, elapsed_ns),
        ),
        (CpuSample::ProcJiffies(a), CpuSample::ProcJiffies(b)) => Ok(procfs::get_cpu_usage(a, b)),
        _ => Err(StatError::InvalidData),
    }
}

/// One sampling interval's record. An absent field means that no source
/// could supply it this interval.
#[derive(Debug, Clone, Copy, PartialEq, Eq, Structural)]
pub struct StatsEntry {
    /// Milliseconds since the Unix epoch.
    pub time_ms: u64,
    pub num_cpus: Option<Ratio>,
    pub cpu_usage: Option<CoreUsage>,
    pub memory_usage_kb: Option<u64>,
    pub memory_total_kb: Option<u64>,
    pub num_gpus: Option<u64>,
    pub gpu_usage: Option<Ratio>,
    pub gpu_memory_usage_kb: Option<u64>,
    pub gpu_memory_total_kb: Option<u64>,
}

impl StatsEntry {
    /// An empty record taken at `time_ms`.
    pub fn new(time_ms: u64) -> (r: Self)
        ensures
            r == (StatsEntry {
                time_ms,
                num_cpus: None,
                cpu_usage: None,
                memory_usage_kb: None,
                memory_total_kb: None,
                num_gpus: None,
                gpu_usage: None,
                gpu_memory_usage_kb: None,
                gpu_memory_total_kb: None,
            }),
    {
        StatsEntry {
            time_ms,
            num_cpus: None,
            cpu_usage: None,
            memory_usage_kb: None,
            memory_total_kb: None,
            num_gpus: None,
            gpu_usage: None,
            gpu_memory_usage_kb: None,
            gpu_memory_total_kb: None,
        }
    }
}

pub open spec fn entry_of(
    time_ms: u64,
    num_cpus: Option<Ratio>,
    cpu_usage: Option<CpuUsageValue>,
    memory_usage_kb: Option<u64>,
    memory_total_kb: Option<u64>,
    gpu: Option<GpuStats>,
) -> StatsEntry {
    StatsEntry {
        time_ms,
        num_cpus,
        cpu_usage: match cpu_usage {
            Some(u) => u.normalized(num_cpus),
            None => None,
        },
        memory_usage_kb,
        memory_total_kb,
        num_gpus: match gpu {
            Some(g) => Some(g.num_gpus),
            None => None,
        },
        gpu_usage: match gpu {
            Some(g) => Some(g.gpu_usage),
            None => None,
        },
        gpu_memory_usage_kb: match gpu {
            Some(g) => Some(g.memory_usage_kb),
            None => None,
        },
        gpu_memory_total_kb: match gpu {
            Some(g) => Some(g.memory_total_kb),
            None => None,
        },
    }
}

/// Puts the figures of one interval together. CPU usage is expressed in
/// fully busy cores; a procfs share is dropped when the core count is
/// unknown.
pub fn assemble_stats_entry(
    time_ms: u64,
    num_cpus: Option<Ratio>,
    cpu_usage: Option<CpuUsageValue>,
    memory_usage_kb: Option<u64>,
    memory_total_kb: Option<u64>,
    gpu: Option<GpuStats>,
) -> (r: StatsEntry)
    ensures
        r == entry_of(time_ms, num_cpus, cpu_usage, memory_usage_kb, memory_total_kb, gpu),
{
    let mut entry = StatsEntry::new(time_ms);
    entry.num_cpus = num_cpus;
    if let Some(usage) = cpu_usage {
        entry.cpu_usage = usage.normalize(num_cpus);
    }
    entry.memory_usage_kb = memory_usage_kb;
    entry.memory_total_kb = memory_total_kb;
    if let Some(g) = gpu {
        entry.num_gpus = Some(g.num_gpus);
        entry.gpu_usage = Some(g.gpu_usage);
        entry.gpu_memory_usage_kb = Some(g.memory_usage_kb);
        entry.gpu_memory_total_kb = Some(g.memory_total_kb);
    }
    entry
}

/// A counter that went backwards between two readings (a reset or wrap)
/// counts as no usage: the figure is zero, never negative and never an error.
pub proof fn lemma_counter_reset_reads_zero(initial: u64, current: u64, elapsed: u64, a: Seq<u64>, b: Seq<u64>)
    ensures
        current < initial ==> window_ratio(initial, current, elapsed).numer == 0,
        current < initial ==> window_ratio(initial, current, elapsed).denom > 0,
        procfs::total(b) <= procfs::total(a) ==> busy_share(a, b).numer == 0,
{
}

/// procfs shares lie in [0, 1]; cgroup readings are already in cores and
/// are never scaled again, whatever the core count.
pub proof fn lemma_usage_scaling(a: Seq<u64>, b: Seq<u64>, r: Ratio, num_cpus: Option<Ratio>)
    requires
        a.len() <= usize::MAX,
        b.len() <= usize::MAX,
    ensures
        busy_share(a, b).within_unit(),
        CpuUsageValue::FromCgroupV2(r).normalized(num_cpus) == Some(CoreUsage { usage: r, cores: one_ratio() }),
        CpuUsageValue::FromCgroupV1(r).normalized(num_cpus) == Some(CoreUsage { usage: r, cores: one_ratio() }),
        CpuUsageValue::FromProc(r).normalized(num_cpus) == match num_cpus {
            Some(c) => Some(CoreUsage { usage: r, cores: c }),
            None => None::<CoreUsage>,
        },
{
    procfs::lemma_total_fits(a);
    procfs::lemma_total_fits(b);
}

} // verus!
