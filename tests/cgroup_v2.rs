use acolyte::cgroup_v2::{
    get_cpu_usage, get_cpu_usage_usec, get_memory_current_kb, get_memory_max_kb, get_num_cpus,
    CgroupV2Provider, CgroupV2Source,
};
use acolyte::stats::{CpuSample, CpuUsageValue, FileReader, Ratio, StatError, SystemStatsSource};

struct Mock {
    cpu_stat: Result<Vec<String>, StatError>,
    cpu_max: Result<String, StatError>,
    memory_current: Result<String, StatError>,
    memory_max: Result<String, StatError>,
}

impl Mock {
    fn new() -> Self {
        Mock {
            cpu_stat: Err(StatError::NotFound),
            cpu_max: Err(StatError::NotFound),
            memory_current: Err(StatError::NotFound),
            memory_max: Err(StatError::NotFound),
        }
    }
}

impl CgroupV2Provider for Mock {
    fn get_cgroup_v2_cpu_stat(&self) -> Result<Vec<String>, StatError> {
        self.cpu_stat.clone()
    }
    fn get_cgroup_v2_cpu_max(&self) -> Result<String, StatError> {
        self.cpu_max.clone()
    }
    fn get_cgroup_v2_memory_current(&self) -> Result<String, StatError> {
        self.memory_current.clone()
    }
    fn get_cgroup_v2_memory_max(&self) -> Result<String, StatError> {
        self.memory_max.clone()
    }
}

fn cpu_max(text: &str) -> Result<Ratio, StatError> {
    let mut mock = Mock::new();
    mock.cpu_max = Ok(text.to_string());
    get_num_cpus(&mock)
}

fn as_f64(r: Ratio) -> f64 {
    r.numer as f64 / r.denom as f64
}

#[test]
fn test_get_cpu_usage_usec() {
    let mut mock = Mock::new();
    mock.cpu_stat = Ok(vec![
        "usage_usec 1000000".to_string(),
        "user_usec 800000".to_string(),
        "system_usec 200000".to_string(),
    ]);
    let microseconds = get_cpu_usage_usec(&mock);
    assert!(microseconds.is_ok());
    assert_eq!(microseconds.unwrap(), 1000000);
}

#[test]
fn usage_usec_missing_is_invalid() {
    let mut mock = Mock::new();
    mock.cpu_stat = Ok(vec!["user_usec 800000".to_string(), "usage_usec x".to_string()]);
    assert_eq!(get_cpu_usage_usec(&mock), Err(StatError::InvalidData));
}

#[test]
fn test_get_memory_current_kb_normal() {
    let mut mock = Mock::new();
    mock.memory_current = Ok("1048576".to_string());
    assert_eq!(get_memory_current_kb(&mock).unwrap(), 1024);
}

#[test]
fn test_get_memory_current_kb_invalid_format() {
    let mut mock = Mock::new();
    mock.memory_current = Ok("invalid".to_string());
    assert!(get_memory_current_kb(&mock).is_err());
}

#[test]
fn test_get_memory_current_kb_io_error() {
    let mut mock = Mock::new();
    mock.memory_current = Err(StatError::NotFound);
    assert!(get_memory_current_kb(&mock).is_err());
}

#[test]
fn test_get_memory_max_kb_normal() {
    let mut mock = Mock::new();
    mock.memory_max = Ok("1048576".to_string());
    assert_eq!(get_memory_max_kb(&mock).unwrap(), 1024);
}

#[test]
fn test_get_memory_max_kb_unlimited() {
    let mut mock = Mock::new();
    mock.memory_max = Ok("max".to_string());
    let result = get_memory_max_kb(&mock);
    assert!(result.is_err());
    assert!(result.unwrap_err().message().contains("unlimited"));
}

#[test]
fn test_get_memory_max_kb_invalid_format() {
    let mut mock = Mock::new();
    mock.memory_max = Ok("invalid".to_string());
    assert!(get_memory_max_kb(&mock).is_err());
}

#[test]
fn test_get_memory_max_kb_io_error() {
    let mut mock = Mock::new();
    mock.memory_max = Err(StatError::NotFound);
    assert!(get_memory_max_kb(&mock).is_err());
}

#[test]
fn test_get_num_cpus_with_quota() {
    assert_eq!(as_f64(cpu_max("200000 100000").unwrap()), 2.0);
}

#[test]
fn test_get_num_cpus_with_fractional_quota() {
    let r = cpu_max("50000 100000").unwrap();
    assert_eq!(r, Ratio { numer: 50000, denom: 100000 });
    assert_eq!(as_f64(r), 0.5);
}

#[test]
fn test_get_num_cpus_with_no_quota() {
    let result = cpu_max("max 100000");
    assert!(result.is_err());
    assert!(result.unwrap_err().message().contains("unlimited"));
}

#[test]
fn test_get_num_cpus_with_invalid_format() {
    assert!(cpu_max("200000").is_err());
}

#[test]
fn test_get_num_cpus_with_invalid_quota() {
    assert!(cpu_max("invalid 100000").is_err());
}

#[test]
fn test_get_num_cpus_with_invalid_period() {
    assert!(cpu_max("200000 invalid").is_err());
}

#[test]
fn max_quota_is_unavailable_whatever_the_period() {
    assert_eq!(cpu_max("max 100000\n"), Err(StatError::Unlimited));
    assert_eq!(cpu_max("max 1"), Err(StatError::Unlimited));
    assert_eq!(cpu_max("max 0"), Err(StatError::Unlimited));
    assert_eq!(cpu_max("max 18446744073709551615"), Err(StatError::Unlimited));
}

#[test]
fn zero_period_has_no_core_count() {
    assert_eq!(cpu_max("100000 0"), Err(StatError::InvalidData));
}

#[test]
fn cgroup_v2_usage_over_window() {
    assert_eq!(
        get_cpu_usage(1_000_000, 1_150_000, 100_000),
        CpuUsageValue::FromCgroupV2(Ratio { numer: 150_000, denom: 100_000 })
    );
    assert_eq!(
        get_cpu_usage(2_000_000, 1_000_000, 100_000),
        CpuUsageValue::FromCgroupV2(Ratio { numer: 0, denom: 100_000 })
    );
}

struct Files(Vec<(String, String)>);

impl FileReader for Files {
    fn read_first_line(&self, path: &str) -> Result<String, StatError> {
        self.read_all_lines(path).map(|l| l.into_iter().next().unwrap_or_default())
    }
    fn read_all_lines(&self, path: &str) -> Result<Vec<String>, StatError> {
        for (p, c) in &self.0 {
            if p == path {
                return Ok(c.lines().map(|l| l.to_string()).collect());
            }
        }
        Err(StatError::NotFound)
    }
}

#[test]
fn filesystem_source_reads_unified_files() {
    let files = Files(vec![
        ("/sys/fs/cgroup/cpu.max".to_string(), "max 100000\n".to_string()),
        ("/sys/fs/cgroup/cpu.stat".to_string(), "usage_usec 42\nuser_usec 40\n".to_string()),
        ("/sys/fs/cgroup/memory.current".to_string(), "2048\n".to_string()),
        ("/sys/fs/cgroup/memory.max".to_string(), "max\n".to_string()),
    ]);
    let source = CgroupV2Source::with_filesystem_reader_at("/sys/fs/cgroup", files);
    assert_eq!(source.get_num_cpus(), Err(StatError::Unlimited));
    assert_eq!(source.sample_cpu(), Ok(CpuSample::CgroupV2Usec(42)));
    assert_eq!(source.get_memory_usage_kb(), Ok(2));
    assert_eq!(source.get_memory_total_kb(), Err(StatError::Unlimited));
}
