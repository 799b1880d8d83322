use acolyte::gpu::{aggregate_gpu_stats, get_gpu_stats, GpuStats, NvidiaSmiExecutor, NvidiaSmiProvider};
use acolyte::stats::{Ratio, StatError};

struct Mock(Result<String, StatError>);

impl NvidiaSmiProvider for Mock {
    fn get_nvidia_gpu_stats(&self) -> Result<String, StatError> {
        self.0.clone()
    }
}

fn usage(s: &GpuStats) -> f64 {
    s.gpu_usage.numer as f64 / s.gpu_usage.denom as f64
}

#[test]
fn test_get_gpu_stats_when_available() {
    let mock = Mock(Ok("0, 75, 8000, 16000\n1, 50, 4000, 16000".to_string()));
    let stats = get_gpu_stats(&mock).unwrap();
    assert_eq!(stats.num_gpus, 2);
    assert_eq!(usage(&stats), 1.25);
    assert_eq!(stats.memory_usage_kb, 12_288_000);
    assert_eq!(stats.memory_total_kb, 32_768_000);
}

#[test]
fn test_get_gpu_stats_when_not_available() {
    let mock = Mock(Err(StatError::NotFound));
    assert!(get_gpu_stats(&mock).is_err());
}

#[test]
fn test_get_gpu_stats_with_empty_output() {
    let stats = get_gpu_stats(&Mock(Ok("".to_string()))).unwrap();
    assert_eq!(stats.num_gpus, 0);
    assert_eq!(usage(&stats), 0.0);
    assert_eq!(stats.memory_usage_kb, 0);
    assert_eq!(stats.memory_total_kb, 0);
}

#[test]
fn test_get_gpu_stats_with_unexpected_output() {
    let mock = Mock(Ok("this has nothing to do with our stats".to_string()));
    let stats = get_gpu_stats(&mock).unwrap();
    assert_eq!(stats.num_gpus, 0);
    assert_eq!(usage(&stats), 0.0);
    assert_eq!(stats.memory_usage_kb, 0);
    assert_eq!(stats.memory_total_kb, 0);
}

#[test]
fn test_get_gpu_stats_with_malformed_output_line() {
    let mock = Mock(Ok("0, 75, 8000, 16000\n1, 50, 4000".to_string()));
    let stats = get_gpu_stats(&mock).unwrap();
    assert_eq!(stats.num_gpus, 1);
    assert_eq!(usage(&stats), 0.75);
    assert_eq!(stats.memory_usage_kb, 8_192_000);
    assert_eq!(stats.memory_total_kb, 16_384_000);
}

#[test]
fn compact_rows_aggregate_exactly() {
    let stats = aggregate_gpu_stats("0,75,8000,16000\n1,50,4000,16000\n");
    assert_eq!(
        stats,
        GpuStats {
            num_gpus: 2,
            gpu_usage: Ratio { numer: 125_000_000, denom: 100_000_000 },
            memory_usage_kb: 12288000,
            memory_total_kb: 32768000,
        }
    );
    assert_eq!(aggregate_gpu_stats("0,75,8000,16000\n1,50,4000,16000\n"), stats);
}

#[test]
fn unreadable_fields_count_as_zero() {
    let stats = aggregate_gpu_stats("0, [N/A], x, 100\n");
    assert_eq!(stats.num_gpus, 1);
    assert_eq!(stats.gpu_usage, Ratio { numer: 0, denom: 100_000_000 });
    assert_eq!(stats.memory_usage_kb, 0);
    assert_eq!(stats.memory_total_kb, 102_400);
}

#[test]
fn huge_memory_figures_stop_at_the_maximum() {
    let stats = aggregate_gpu_stats("0, 1, 18446744073709551615, 1\n");
    assert_eq!(stats.memory_usage_kb, u64::MAX);
    assert_eq!(stats.memory_total_kb, 1024);
}

#[test]
fn gpu_query_command() {
    let e = NvidiaSmiExecutor::new();
    assert_eq!(e.program, "nvidia-smi");
    assert_eq!(
        e.args,
        vec![
            "--query-gpu=index,utilization.gpu,memory.used,memory.total".to_string(),
            "--format=csv,noheader,nounits".to_string()
        ]
    );
}

#[test]
fn decimal_utilization_is_read_exactly() {
    let stats = aggregate_gpu_stats("0,75.5,8000,16000\n");
    assert_eq!(stats.gpu_usage, Ratio { numer: 75_500_000, denom: 100_000_000 });
    assert_eq!(usage(&stats), 0.755);
    let stats = aggregate_gpu_stats("0, .25, 1, 1\n1, 3., 1, 1\n2, +1.0000009, 1, 1\n");
    assert_eq!(stats.gpu_usage.numer, 250_000 + 3_000_000 + 1_000_000);
    let stats = aggregate_gpu_stats("0, ., 1, 1\n1, -5, 1, 1\n2, 1.2.3, 1, 1\n");
    assert_eq!(stats.num_gpus, 3);
    assert_eq!(stats.gpu_usage.numer, 0);
}
