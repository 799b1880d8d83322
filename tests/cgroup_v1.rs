use acolyte::cgroup_v1::{
    get_cpu_usage, get_cpu_usage_ns, get_hierarchical_memory_limit, get_memory_max_kb,
    get_memory_usage_kb, get_no_limit_value, get_num_cpus, resolve_memory_max_kb,
    CgroupV1MountPoints, CgroupV1Provider, CgroupV1Source,
};
use acolyte::stats::{
    get_path_or_croak, ControlFile, CpuSample, CpuUsageValue, FileReader, Ratio, StatError,
    SystemStatsSource,
};
use std::cell::Cell;

struct Mock {
    quota: Result<String, StatError>,
    period: Result<String, StatError>,
    cpuacct: Result<String, StatError>,
    usage: Result<String, StatError>,
    limit: Result<String, StatError>,
    stat: Result<Vec<String>, StatError>,
    limit_reads: Cell<u32>,
}

impl Mock {
    fn new() -> Self {
        Mock {
            quota: Err(StatError::NotFound),
            period: Err(StatError::NotFound),
            cpuacct: Err(StatError::NotFound),
            usage: Err(StatError::NotFound),
            limit: Err(StatError::NotFound),
            stat: Err(StatError::NotFound),
            limit_reads: Cell::new(0),
        }
    }
}

impl CgroupV1Provider for Mock {
    fn get_cgroup_v1_cpu_cfs_quota(&self) -> Result<String, StatError> {
        self.quota.clone()
    }
    fn get_cgroup_v1_cpu_cfs_period(&self) -> Result<String, StatError> {
        self.period.clone()
    }
    fn get_cgroup_v1_cpuacct_usage(&self) -> Result<String, StatError> {
        self.cpuacct.clone()
    }
    fn get_cgroup_v1_memory_usage_in_bytes(&self) -> Result<String, StatError> {
        self.usage.clone()
    }
    fn get_cgroup_v1_memory_limit_in_bytes(&self) -> Result<String, StatError> {
        self.limit_reads.set(self.limit_reads.get() + 1);
        self.limit.clone()
    }
    fn get_cgroup_v1_memory_stat(&self) -> Result<Vec<String>, StatError> {
        self.stat.clone()
    }
}

fn lines(v: &[&str]) -> Vec<String> {
    v.iter().map(|s| s.to_string()).collect()
}

fn as_f64(r: Ratio) -> f64 {
    r.numer as f64 / r.denom as f64
}

#[test]
fn test_get_cpu_usage_ns() {
    let mut mock = Mock::new();
    mock.cpuacct = Ok("12345678\n".to_string());
    let usage_ns = get_cpu_usage_ns(&mock).unwrap();
    assert_eq!(usage_ns, 12345678);
}

#[test]
fn test_get_cpu_usage_ns_invalid_format() {
    let mut mock = Mock::new();
    mock.cpuacct = Ok("invalid\n".to_string());
    assert!(get_cpu_usage_ns(&mock).is_err());
}

#[test]
fn test_get_memory_usage_kb_normal() {
    let mut mock = Mock::new();
    mock.usage = Ok("1048576\n".to_string());
    assert_eq!(get_memory_usage_kb(&mock).unwrap(), 1024);
}

#[test]
fn test_get_memory_usage_kb_invalid_format() {
    let mut mock = Mock::new();
    mock.usage = Ok("invalid\n".to_string());
    assert!(get_memory_usage_kb(&mock).is_err());
}

#[test]
fn test_get_memory_usage_kb_io_error() {
    let mut mock = Mock::new();
    mock.usage = Err(StatError::NotFound);
    assert!(get_memory_usage_kb(&mock).is_err());
}

#[test]
fn test_prefers_hierarchical_memory_limit() {
    let mut mock = Mock::new();
    mock.stat = Ok(lines(&["cache 123456", "hierarchical_memory_limit 4194304", "total_swap 0"]));
    assert_eq!(get_memory_max_kb(&mock).unwrap(), 4096);
    assert_eq!(mock.limit_reads.get(), 0);
}

#[test]
fn test_unlimited_hierarchical_fallbacks() {
    let mut mock = Mock::new();
    mock.stat = Ok(lines(&[
        "cache 123456",
        "hierarchical_memory_limit 9223372036854771712",
        "total_swap 0",
    ]));
    mock.limit = Ok("2097152\n".to_string());
    assert_eq!(get_memory_max_kb(&mock).unwrap(), 2048);
}

#[test]
fn test_hierarchical_memory_limit_field_missing() {
    let mut mock = Mock::new();
    mock.stat = Ok(lines(&["cache 123456", "total_swap 0"]));
    mock.limit = Ok("2097152\n".to_string());
    assert_eq!(get_memory_max_kb(&mock).unwrap(), 2048);
}

#[test]
fn test_memory_stat_access_fail_fallbacks() {
    let mut mock = Mock::new();
    mock.stat = Err(StatError::NotFound);
    mock.limit = Ok("2097152\n".to_string());
    assert_eq!(get_memory_max_kb(&mock).unwrap(), 2048);
}

#[test]
fn test_secondary_source() {
    let mut mock = Mock::new();
    mock.stat = Err(StatError::NotFound);
    mock.limit = Ok("2097152\n".to_string());
    assert_eq!(get_memory_max_kb(&mock).unwrap(), 2048);
}

#[test]
fn test_unlimited_memory_limit_as_fallback_is_error() {
    let mut mock = Mock::new();
    mock.stat = Err(StatError::NotFound);
    mock.limit = Ok("9223372036854771712\n".to_string());
    assert!(get_memory_max_kb(&mock).is_err());
}

#[test]
fn test_invalid_format() {
    let mut mock = Mock::new();
    mock.stat = Err(StatError::NotFound);
    mock.limit = Ok("invalid\n".to_string());
    assert!(get_memory_max_kb(&mock).is_err());
}

#[test]
fn test_double_io_errors() {
    let mut mock = Mock::new();
    mock.stat = Err(StatError::NotFound);
    mock.limit = Err(StatError::NotFound);
    assert!(get_memory_max_kb(&mock).is_err());
}

fn cfs(quota: &str, period: &str) -> Result<Ratio, StatError> {
    let mut mock = Mock::new();
    mock.quota = Ok(quota.to_string());
    mock.period = Ok(period.to_string());
    get_num_cpus(&mock)
}

#[test]
fn test_normal() {
    assert_eq!(as_f64(cfs("200000\n", "100000\n").unwrap()), 2.0);
}

#[test]
fn test_fractional() {
    let r = cfs("50000\n", "100000\n").unwrap();
    assert_eq!(r, Ratio { numer: 50000, denom: 100000 });
    assert_eq!(as_f64(r), 0.5);
}

#[test]
fn test_unlimited_quota() {
    assert_eq!(cfs("-1\n", "100000\n"), Err(StatError::Unlimited));
}

#[test]
fn test_zero_period() {
    assert!(cfs("100000\n", "0\n").is_err());
}

#[test]
fn test_invalid_quota() {
    assert!(cfs("invalid\n", "100000\n").is_err());
}

#[test]
fn test_invalid_period() {
    assert!(cfs("100000\n", "invalid\n").is_err());
}

#[test]
fn zero_quota_means_no_limit() {
    assert_eq!(cfs("0\n", "100000\n"), Err(StatError::Unlimited));
}

#[test]
fn quota_read_error_is_passed_on() {
    let mut mock = Mock::new();
    mock.period = Ok("100000".to_string());
    assert_eq!(get_num_cpus(&mock), Err(StatError::NotFound));
}

#[test]
fn hierarchical_limit_with_bad_value_is_invalid() {
    let r = get_hierarchical_memory_limit(&lines(&["hierarchical_memory_limit lots"]));
    assert_eq!(r, Err(StatError::InvalidData));
    let r = get_hierarchical_memory_limit(&lines(&["cache 1"]));
    assert_eq!(r, Err(StatError::NotFound));
}

#[test]
fn hierarchical_limit_needs_the_exact_key() {
    let r = get_hierarchical_memory_limit(&lines(&[
        "hierarchical_memory_limitx 1",
        "hierarchical_memory_limit 8192",
    ]));
    assert_eq!(r, Ok(8192));
}

#[test]
fn both_memory_limits_unlimited_is_unlimited() {
    let stat = Ok(lines(&["hierarchical_memory_limit 9223372036854771712"]));
    let limit = Ok("9223372036854771712".to_string());
    assert_eq!(resolve_memory_max_kb(&stat, &limit), Err(StatError::Unlimited));
    assert_eq!(get_no_limit_value(), 9223372036854771712);
}

#[test]
fn counter_reset_gives_zero_usage() {
    let v = get_cpu_usage(5_000, 1_000, 1_000_000);
    assert_eq!(v, CpuUsageValue::FromCgroupV1(Ratio { numer: 0, denom: 1_000_000 }));
    let v = get_cpu_usage(1_000, 501_000, 1_000_000);
    assert_eq!(v, CpuUsageValue::FromCgroupV1(Ratio { numer: 500_000, denom: 1_000_000 }));
    let v = get_cpu_usage(1_000, 2_000, 0);
    assert_eq!(v, CpuUsageValue::FromCgroupV1(Ratio { numer: 0, denom: 1 }));
}

#[test]
fn mount_points_derive_and_reset() {
    let mut mp = CgroupV1MountPoints::new(
        Some("/sys/fs/cgroup/cpu,cpuacct".to_string()),
        None,
        Some("/sys/fs/cgroup/memory/".to_string()),
    );
    assert_eq!(mp.cpu().as_deref(), Some("/sys/fs/cgroup/cpu,cpuacct"));
    assert_eq!(mp.cpuacct(), &None);
    mp.set_cpuacct(Some("/x".to_string()));
    assert_eq!(mp.cpuacct().as_deref(), Some("/x"));
    mp.set_memory(None);
    assert_eq!(mp.memory(), &None);
    assert_eq!(CgroupV1MountPoints::default().cpu(), &None);
}

struct Files(Vec<(String, String)>);

impl FileReader for Files {
    fn read_first_line(&self, path: &str) -> Result<String, StatError> {
        self.read_all_lines(path).map(|l| l.into_iter().next().unwrap_or_default())
    }
    fn read_all_lines(&self, path: &str) -> Result<Vec<String>, StatError> {
        for (p, c) in &self.0 {
            if p == path {
                return Ok(c.lines().map(|l| l.to_string()).collect());
            }
        }
        Err(StatError::NotFound)
    }
}

#[test]
fn filesystem_source_reads_controller_files() {
    let files = Files(vec![
        ("/cg/cpu/cpu.cfs_quota_us".to_string(), "150000\n".to_string()),
        ("/cg/cpu/cpu.cfs_period_us".to_string(), "100000\n".to_string()),
        ("/cg/acct/cpuacct.usage".to_string(), "777\n".to_string()),
        ("/cg/mem/memory.usage_in_bytes".to_string(), "4096\n".to_string()),
        ("/cg/mem/memory.limit_in_bytes".to_string(), "8192\n".to_string()),
    ]);
    let mp = CgroupV1MountPoints::new(
        Some("/cg/cpu".to_string()),
        Some("/cg/acct".to_string()),
        Some("/cg/mem".to_string()),
    );
    let source = CgroupV1Source::with_filesystem_reader_at(mp, files);
    assert_eq!(source.get_num_cpus(), Ok(Ratio { numer: 150000, denom: 100000 }));
    assert_eq!(source.sample_cpu(), Ok(CpuSample::CgroupV1Ns(777)));
    assert_eq!(source.get_memory_usage_kb(), Ok(4));
    assert_eq!(source.get_memory_total_kb(), Ok(8));
}

#[test]
fn filesystem_source_without_controller_is_not_found() {
    let source = CgroupV1Source::with_filesystem_reader_at(
        CgroupV1MountPoints::new(None, None, None),
        Files(vec![]),
    );
    assert_eq!(
        source.get_num_cpus(),
        Err(StatError::FileNotFound(ControlFile::CpuCfsQuotaUs))
    );
    assert_eq!(
        source.get_memory_total_kb(),
        Err(StatError::FileNotFound(ControlFile::MemoryLimitInBytes))
    );
    assert_eq!(
        source.get_num_cpus().unwrap_err().message(),
        "cpu.cfs_quota_us file not found"
    );
}

#[test]
fn missing_path_names_the_file() {
    let none: Option<String> = None;
    let r = get_path_or_croak(&none, ControlFile::MemoryStat);
    assert_eq!(r, Err(StatError::FileNotFound(ControlFile::MemoryStat)));
    assert_eq!(r.unwrap_err().message(), "memory.stat file not found");
    let some = Some("/cg/mem/memory.stat".to_string());
    assert_eq!(get_path_or_croak(&some, ControlFile::MemoryStat), Ok(&"/cg/mem/memory.stat".to_string()));
}
