use acolyte::gpu::GpuStats;
use acolyte::sampling::{
    assemble_stats_entry, collect_stats_entry, cpu_usage_between, first_ok_of, get_sources,
    select_cpu_sample, select_memory_total_kb, select_memory_usage_kb, select_num_cpus, Source,
    StatsEntry,
};
use acolyte::stats::{CoreUsage, CpuSample, CpuUsageValue, FileReader, Ratio, StatError};

#[derive(Clone)]
struct Files(Vec<(String, String)>);

impl FileReader for Files {
    fn read_first_line(&self, path: &str) -> Result<String, StatError> {
        self.read_all_lines(path).map(|l| l.into_iter().next().unwrap_or_default())
    }
    fn read_all_lines(&self, path: &str) -> Result<Vec<String>, StatError> {
        for (p, c) in &self.0 {
            if p == path {
                return Ok(c.lines().map(|l| l.to_string()).collect());
            }
        }
        Err(StatError::NotFound)
    }
}

fn kinds(sources: &[Source<Files>]) -> Vec<&'static str> {
    sources
        .iter()
        .map(|s| match s {
            Source::CgroupV2(_) => "v2",
            Source::CgroupV1(_) => "v1",
            Source::Proc(_) => "proc",
        })
        .collect()
}

const MOUNTS: &str = "cgroup2 /sys/fs/cgroup cgroup2 rw 0 0\ncgroup /sys/fs/cgroup/memory cgroup rw,memory 0 0\n";

#[test]
fn sources_follow_the_detected_version() {
    let f = Files(vec![]);
    assert_eq!(kinds(&get_sources(Some("0::/\n"), Some(MOUNTS), "/proc", f.clone())), vec!["v2", "proc"]);
    assert_eq!(
        kinds(&get_sources(Some("1:a:/\n2:b:/\n"), Some(MOUNTS), "/proc", f.clone())),
        vec!["v1", "proc"]
    );
    assert_eq!(kinds(&get_sources(None, Some(MOUNTS), "/proc", f.clone())), vec!["proc"]);
    assert_eq!(kinds(&get_sources(Some("0::/"), None, "/proc", f.clone())), vec!["proc"]);
    assert_eq!(kinds(&get_sources(Some("0::/"), Some("proc /proc proc rw 0 0"), "/proc", f)), vec!["proc"]);
}

#[test]
fn each_metric_comes_from_the_first_source_that_has_it() {
    let files = Files(vec![
        ("/sys/fs/cgroup/cpu.max".to_string(), "max 100000\n".to_string()),
        ("/sys/fs/cgroup/cpu.stat".to_string(), "usage_usec 10\n".to_string()),
        ("/sys/fs/cgroup/memory.current".to_string(), "4096\n".to_string()),
        ("/sys/fs/cgroup/memory.max".to_string(), "max\n".to_string()),
        ("/proc/stat".to_string(), "cpu  1 2 3 4 5\ncpu0 1 2 3 4 5\ncpu1 1 2 3 4 5\n".to_string()),
        ("/proc/meminfo".to_string(), "MemTotal: 1000 kB\nMemAvailable: 600 kB\n".to_string()),
    ]);
    let sources = get_sources(Some("0::/"), Some(MOUNTS), "/proc", files);
    let (cores, probed) = select_num_cpus(&sources);
    assert_eq!(cores, Some(Ratio { numer: 2, denom: 1 }));
    assert_eq!(probed, vec![Err(StatError::Unlimited), Ok(Ratio { numer: 2, denom: 1 })]);
    let (k, samples) = select_cpu_sample(&sources, 0);
    assert_eq!(k, Some(0));
    assert_eq!(samples, vec![Ok(CpuSample::CgroupV2Usec(10))]);
    let (k, samples) = select_cpu_sample(&sources, 1);
    assert_eq!(k, Some(0));
    assert_eq!(samples.len(), 1);
    assert_eq!(select_cpu_sample(&sources, 2), (None, vec![]));
    assert_eq!(select_memory_usage_kb(&sources).0, Some(4));
    let (total, probed) = select_memory_total_kb(&sources);
    assert_eq!(total, Some(1000));
    assert_eq!(probed, vec![Err(StatError::Unlimited), Ok(1000)]);
    let (entry, usage_probed, total_probed) = collect_stats_entry(&sources, 5, &probed_cores(), None, None);
    assert_eq!(entry.num_cpus, Some(Ratio { numer: 8, denom: 1 }));
    assert_eq!(entry.memory_usage_kb, Some(4));
    assert_eq!(entry.memory_total_kb, Some(1000));
    assert_eq!(usage_probed, vec![Ok(4)]);
    assert_eq!(total_probed.len(), 2);
}

fn probed_cores() -> Vec<Result<Ratio, StatError>> {
    vec![Err(StatError::NotFound), Ok(Ratio { numer: 8, denom: 1 }), Ok(Ratio { numer: 3, denom: 1 })]
}

#[test]
fn first_success_is_chosen() {
    assert_eq!(first_ok_of(&probed_cores()), Some(Ratio { numer: 8, denom: 1 }));
    let none: Vec<Result<u64, StatError>> = vec![Err(StatError::Io), Err(StatError::Unlimited)];
    assert_eq!(first_ok_of(&none), None);
    assert_eq!(first_ok_of::<u64>(&vec![]), None);
}

#[test]
fn no_source_with_a_figure_gives_none() {
    let sources = get_sources(None, None, "/nowhere", Files(vec![]));
    let (cores, probed) = select_num_cpus(&sources);
    assert_eq!(cores, None);
    assert_eq!(probed, vec![Err(StatError::NotFound)]);
    assert_eq!(select_cpu_sample(&sources, 0), (None, vec![Err(StatError::NotFound)]));
}

#[test]
fn usage_between_samples_of_one_kind() {
    assert_eq!(
        cpu_usage_between(&CpuSample::CgroupV2Usec(100), &CpuSample::CgroupV2Usec(150_100), 100_000_000),
        Ok(CpuUsageValue::FromCgroupV2(Ratio { numer: 150_000, denom: 100_000 }))
    );
    assert_eq!(
        cpu_usage_between(&CpuSample::CgroupV1Ns(0), &CpuSample::CgroupV1Ns(50), 100),
        Ok(CpuUsageValue::FromCgroupV1(Ratio { numer: 50, denom: 100 }))
    );
    assert_eq!(
        cpu_usage_between(&CpuSample::CgroupV2Usec(0), &CpuSample::CgroupV1Ns(50), 100),
        Err(StatError::InvalidData)
    );
    assert_eq!(
        cpu_usage_between(&CpuSample::CgroupV2Usec(0), &CpuSample::CgroupV2Usec(50), 999),
        Ok(CpuUsageValue::FromCgroupV2(Ratio { numer: 0, denom: 1 }))
    );
}

#[test]
fn proc_usage_is_scaled_by_core_count_and_cgroup_usage_is_not() {
    let cores = Some(Ratio { numer: 4, denom: 1 });
    let share = Ratio { numer: 1, denom: 2 };
    let e = assemble_stats_entry(7, cores, Some(CpuUsageValue::FromProc(share)), Some(1), Some(2), None);
    let u = e.cpu_usage.unwrap();
    assert_eq!(u, CoreUsage { usage: share, cores: Ratio { numer: 4, denom: 1 } });
    assert_eq!(u.usage.numer as f64 / u.usage.denom as f64 * u.cores.numer as f64 / u.cores.denom as f64, 2.0);
    let e = assemble_stats_entry(7, None, Some(CpuUsageValue::FromProc(share)), None, None, None);
    assert_eq!(e.cpu_usage, None);
    let e = assemble_stats_entry(7, cores, Some(CpuUsageValue::FromCgroupV1(share)), None, None, None);
    assert_eq!(e.cpu_usage, Some(CoreUsage { usage: share, cores: Ratio { numer: 1, denom: 1 } }));
}

#[test]
fn gpu_figures_fill_their_fields() {
    let g = GpuStats {
        num_gpus: 2,
        gpu_usage: Ratio { numer: 125, denom: 100 },
        memory_usage_kb: 3,
        memory_total_kb: 4,
    };
    let e = assemble_stats_entry(1, None, None, None, None, Some(g));
    let mut expected = StatsEntry::new(1);
    expected.num_gpus = Some(2);
    expected.gpu_usage = Some(Ratio { numer: 125, denom: 100 });
    expected.gpu_memory_usage_kb = Some(3);
    expected.gpu_memory_total_kb = Some(4);
    assert_eq!(e, expected);
}
