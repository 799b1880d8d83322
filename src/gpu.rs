//! GPU statistics: the query handed to `nvidia-smi`, and the aggregation of
//! its comma-separated per-GPU rows.
use crate::decimal::{decimal_millionths, parse_decimal_millionths, parse_u64, parse_u64_spec};
use crate::stats::{Ratio, StatError};
use crate::text::{lines_of, split_char, split_lines, split_on, trim, trimmed, views};
use vstd::prelude::*;
use vstd::string::*;

verus! {

/// Totals over all GPUs. Sums stop at the largest value of their type.
#[derive(Debug, Clone, Copy, PartialEq, Eq, Structural)]
pub struct GpuStats {
    pub num_gpus: u64,
    /// Summed utilization in GPUs: N fully busy GPUs give N. The
    /// denominator is 100 000 000: percent read to the millionth.
    pub gpu_usage: Ratio,
    pub memory_usage_kb: u64,
    pub memory_total_kb: u64,
}

/// Runs the GPU query and hands back its standard output.
pub trait NvidiaSmiProvider {
    fn get_nvidia_gpu_stats(&self) -> Result<String, StatError>;
}

/// The command that queries the GPUs: index, utilization in percent, memory
/// used and memory total in MiB, as CSV without header or units.
pub struct NvidiaSmiExecutor {
    pub program: String,
    pub args: Vec<String>,
}

impl NvidiaSmiExecutor {
    pub fn new() -> (r: Self)
        ensures
            r.program@ == "nvidia-smi"@,
            views(r.args@) == seq![
                "--query-gpu=index,utilization.gpu,memory.used,memory.total"@,
                "--format=csv,noheader,nounits"@,
            ],
    {
        let mut args: Vec<String> = Vec::new();
        args.push(String::from_str("--query-gpu=index,utilization.gpu,memory.used,memory.total"));
        args.push(String::from_str("--format=csv,noheader,nounits"));
        proof {
            assert(views(args@) =~= seq![
                "--query-gpu=index,utilization.gpu,memory.used,memory.total"@,
                "--format=csv,noheader,nounits"@,
            ]);
        }
        NvidiaSmiExecutor { program: String::from_str("nvidia-smi"), args }
    }
}

/// The trimmed comma-separated fields of an output line.
pub open spec fn gpu_fields(line: Seq<char>) -> Seq<Seq<char>> {
    split_char(line, ',').map_values(|f: Seq<char>| trimmed(f))
}

/// A line with at least four fields describes one GPU.
pub open spec fn is_gpu_row(line: Seq<char>) -> bool {
    split_char(line, ',').len() >= 4
}

/// A memory field in MiB; one that does not read as a number counts as zero.
pub open spec fn field_number(f: Seq<char>) -> nat {
    match parse_u64_spec(f) {
        Some(v) => v as nat,
        None => 0,
    }
}

/// A utilization field in millionths of a percent: a decimal number such
/// as `75` or `75.5`; one that does not read as such counts as zero.
pub open spec fn percent_millionths(f: Seq<char>) -> nat {
    match decimal_millionths(f) {
        Some(v) => v,
        None => 0,
    }
}

/// Exact totals over the rows: count, summed utilization in millionths of
/// a percent, and summed used and total memory in KiB (MiB times 1024).
pub open spec fn gpu_totals(lines: Seq<Seq<char>>) -> (nat, nat, nat, nat)
    decreases lines.len(),
{
    if lines.len() == 0 {
        (0, 0, 0, 0)
    } else {
        let prev = gpu_totals(lines.drop_last());
        let line = lines.last();
        if is_gpu_row(line) {
            let f = gpu_fields(line);
            (
                prev.0 + 1,
                prev.1 + percent_millionths(f[1]),
                prev.2 + field_number(f[2]) * 1024,
                prev.3 + field_number(f[3]) * 1024,
            )
        } else {
            prev
        }
    }
}

pub open spec fn capped128(x: nat) -> u128 {
    if x > u128::MAX {
        u128::MAX
    } else {
        x as u128
    }
}

pub open spec fn capped(x: nat) -> u64 {
    if x > u64::MAX {
        u64::MAX
    } else {
        x as u64
    }
}

/// The aggregate of an output: exact count, sums capped.
pub open spec fn gpu_aggregate(output: Seq<char>) -> GpuStats {
    let t = gpu_totals(lines_of(output));
    GpuStats {
        num_gpus: t.0 as u64,
        gpu_usage: Ratio { numer: capped128(t.1), denom: 100_000_000 },
        memory_usage_kb: capped(t.2),
        memory_total_kb: capped(t.3),
    }
}

fn field_value(field: &String) -> (r: u64)
    ensures
        r as nat == field_number(trimmed(field@)),
{
    let t = trim(field.as_str());
    match parse_u64(t.as_str()) {
        Some(v) => v,
        None => 0,
    }
}

fn percent_value(field: &String) -> (r: u128)
    ensures
        r as nat == percent_millionths(trimmed(field@)),
        r < 0x1_0000_0000_0000_0000 * 1_000_000,
{
    let t = trim(field.as_str());
    match parse_decimal_millionths(t.as_str()) {
        Some(v) => v,
        None => 0,
    }
}

fn mib_as_kb(v: u64) -> (r: u64)
    ensures
        r == capped(v as nat * 1024),
{
    match v.checked_mul(1024) {
        Some(k) => k,
        None => u64::MAX,
    }
}

/// Sums the per-GPU rows of the query output. Lines with fewer than four
/// fields are skipped; a field that is not a number counts as zero.
pub fn aggregate_gpu_stats(output: &str) -> (r: GpuStats)
    ensures
        r == gpu_aggregate(output@),
{
    let lines = split_lines(output);
    let ghost all = views(lines@);
    let mut num_gpus: u64 = 0;
    let mut usage: u128 = 0;
    let mut used_kb: u64 = 0;
    let mut total_kb: u64 = 0;
    let mut i: usize = 0;
    proof {
        assert(all.take(0) =~= Seq::<Seq<char>>::empty());
    }
    while i < lines.len()
        invariant
            all == views(lines@),
            all == lines_of(output@),
            i <= lines@.len(),
            num_gpus as nat == gpu_totals(all.take(i as int)).0,
            usage == capped128(gpu_totals(all.take(i as int)).1),
            used_kb == capped(gpu_totals(all.take(i as int)).2),
            total_kb == capped(gpu_totals(all.take(i as int)).3),
            num_gpus <= i,
        decreases lines@.len() - i,
    {
        let ghost prefix = all.take(i + 1);
        proof {
            assert(prefix.drop_last() =~= all.take(i as int));
            assert(prefix.last() == lines@[i as int]@);
        }
        let parts = split_on(lines[i].as_str(), ',');
        proof {
            assert(views(parts@) == split_char(lines@[i as int]@, ','));
        }
        if parts.len() >= 4 {
            let ghost f = gpu_fields(lines@[i as int]@);
            proof {
                assert(f[1] == trimmed(parts@[1]@));
                assert(f[2] == trimmed(parts@[2]@));
                assert(f[3] == trimmed(parts@[3]@));
            }
            num_gpus = num_gpus + 1;
            usage = usage.saturating_add(percent_value(&parts[1]));
            used_kb = used_kb.saturating_add(mib_as_kb(field_value(&parts[2])));
            total_kb = total_kb.saturating_add(mib_as_kb(field_value(&parts[3])));
        }
        i = i + 1;
    }
    proof {
        assert(all.take(lines@.len() as int) =~= all);
    }
    GpuStats {
        num_gpus,
        gpu_usage: Ratio { numer: usage, denom: 100_000_000 },
        memory_usage_kb: used_kb,
        memory_total_kb: total_kb,
    }
}

/// Queries the GPUs and aggregates the answer; fails only when the query does.
pub fn get_gpu_stats<P: NvidiaSmiProvider>(provider: &P) -> (r: Result<GpuStats, StatError>)
    ensures
        r matches Ok(s) ==> s.gpu_usage.denom == 100_000_000,
{
    let output = provider.get_nvidia_gpu_stats()?;
    Ok(aggregate_gpu_stats(output.as_str()))
}

/// An output without any row of four fields (empty, or unrelated text)
/// aggregates to all zeros rather than an error.
pub proof fn lemma_no_rows_all_zero(lines: Seq<Seq<char>>)
    requires
        forall|j: int| 0 <= j < lines.len() ==> !is_gpu_row(#[trigger] lines[j]),
    ensures
        gpu_totals(lines) == (0nat, 0nat, 0nat, 0nat),
    decreases lines.len(),
{
    if lines.len() > 0 {
        let rest = lines.drop_last();
        assert(!is_gpu_row(lines[lines.len() - 1]));
        assert forall|j: int| 0 <= j < rest.len() implies !is_gpu_row(#[trigger] rest[j]) by {
            assert(rest[j] == lines[j]);
        }
        lemma_no_rows_all_zero(rest);
    }
}

/// Aggregation is a sum over rows: the totals of two outputs put one after
/// the other are the sums of their totals, so each row counts once
/// wherever it stands.
pub proof fn lemma_totals_add(a: Seq<Seq<char>>, b: Seq<Seq<char>>)
    ensures
        gpu_totals(a + b).0 == gpu_totals(a).0 + gpu_totals(b).0,
        gpu_totals(a + b).1 == gpu_totals(a).1 + gpu_totals(b).1,
        gpu_totals(a + b).2 == gpu_totals(a).2 + gpu_totals(b).2,
        gpu_totals(a + b).3 == gpu_totals(a).3 + gpu_totals(b).3,
    decreases b.len(),
{
    if b.len() == 0 {
        assert(a + b =~= a);
    } else {
        lemma_totals_add(a, b.drop_last());
        assert((a + b).drop_last() =~= a + b.drop_last());
        assert((a + b).last() == b.last());
    }
}

} // verus!
