//! The agent's configuration, derived from the values of its environment
//! variables, with the defaults that apply when a value is absent or does
//! not read.
use crate::decimal::{parse_u64, parse_u64_spec, parse_usize, parse_usize_spec};
use crate::supervisor::{get_or_create_acolyte_id, uuid_value};
use crate::text::same_text;
use vstd::prelude::*;

verus! {

pub const DEFAULT_STAT_INTERVAL_MS: u64 = 5000;

pub const DEFAULT_CPU_SAMPLE_MS: u64 = 100;

pub const DEFAULT_MAX_STATS_ENTRIES: usize = 12;

/// Records go to standard output as JSON lines, each after `prefix`.
pub struct JsonlToStdoutConfig {
    pub prefix: String,
}

/// Records go to files in `dir`, of which at most `max_stats_entries` are kept.
pub struct StatsDirConfig {
    pub dir: String,
    pub max_stats_entries: usize,
}

pub enum OutputMode {
    JsonlToStdout(JsonlToStdoutConfig),
    StatsDir(StatsDirConfig),
}

#[derive(Debug, Clone, Copy, PartialEq, Eq, Structural)]
pub enum ConfigError {
    /// `ACOLYTE_OUTPUT_MODE` is neither `stdout` nor `dir`.
    InvalidOutputMode,
}

/// The values of the environment variables that the configuration reads,
/// `None` where a variable is unset.
pub struct ConfigEnv {
    pub sentry_dsn: Option<String>,
    pub acolyte_id: Option<String>,
    pub cpu_sample_rate_ms: Option<String>,
    pub stat_interval_ms: Option<String>,
    pub stats_dir: Option<String>,
    pub max_stats_entries: Option<String>,
    pub output_mode: Option<String>,
    pub output_prefix: Option<String>,
    pub cluster_name: Option<String>,
}

pub struct Config {
    pub sentry_dsn: Option<String>,
    pub acolyte_id: u128,
    pub cpu_sample_interval_ms: u64,
    pub stat_interval_ms: u64,
    pub cluster_name: String,
    pub output_mode: OutputMode,
}

pub open spec fn opt_text(value: Option<&str>) -> Option<Seq<char>> {
    match value {
        Some(s) => Some(s@),
        None => None,
    }
}

pub open spec fn u64_or(value: Option<Seq<char>>, default: u64) -> u64 {
    match value {
        Some(s) => match parse_u64_spec(s) {
            Some(v) => v,
            None => default,
        },
        None => default,
    }
}

pub open spec fn text_or(value: Option<Seq<char>>, default: Seq<char>) -> Seq<char> {
    match value {
        Some(s) => s,
        None => default,
    }
}

fn u64_setting(value: Option<&str>, default: u64) -> (r: u64)
    ensures
        r == u64_or(opt_text(value), default),
{
    match value {
        Some(s) => match parse_u64(s) {
            Some(v) => v,
            None => default,
        },
        None => default,
    }
}

fn text_setting(value: Option<&str>, default: &str) -> (r: String)
    ensures
        r@ == text_or(opt_text(value), default@),
{
    match value {
        Some(s) => s.to_owned(),
        None => default.to_owned(),
    }
}

/// Milliseconds between records; 5000 by default.
pub fn get_stat_interval(value: Option<&str>) -> (r: u64)
    ensures
        r == u64_or(opt_text(value), DEFAULT_STAT_INTERVAL_MS),
{
    u64_setting(value, DEFAULT_STAT_INTERVAL_MS)
}

/// Milliseconds of the CPU sampling window; 100 by default.
pub fn get_cpu_sample_ms(value: Option<&str>) -> (r: u64)
    ensures
        r == u64_or(opt_text(value), DEFAULT_CPU_SAMPLE_MS),
{
    u64_setting(value, DEFAULT_CPU_SAMPLE_MS)
}

/// The directory of record files; `/tmp/acolyte/stats` by default.
pub fn get_stats_dir(value: Option<&str>) -> (r: String)
    ensures
        r@ == text_or(opt_text(value), "/tmp/acolyte/stats"@),
{
    text_setting(value, "/tmp/acolyte/stats")
}

/// How many record files to keep; 12 by default.
pub fn get_max_stats_entries(value: Option<&str>) -> (r: usize)
    ensures
        r == match opt_text(value) {
            Some(s) => match parse_usize_spec(s) {
                Some(v) => v,
                None => DEFAULT_MAX_STATS_ENTRIES,
            },
            None => DEFAULT_MAX_STATS_ENTRIES,
        },
{
    match value {
        Some(s) => match parse_usize(s) {
            Some(v) => v,
            None => DEFAULT_MAX_STATS_ENTRIES,
        },
        None => DEFAULT_MAX_STATS_ENTRIES,
    }
}

/// The cluster name reported with crashes; `Unknown` by default.
pub fn get_cluster_name(value: Option<&str>) -> (r: String)
    ensures
        r@ == text_or(opt_text(value), "Unknown"@),
{
    text_setting(value, "Unknown")
}

/// The crash-reporting endpoint, if one is configured.
pub fn get_sentry_dsn(value: Option<&str>) -> (r: Option<String>)
    ensures
        match value {
            Some(s) => r matches Some(d) && d@ == s@,
            None => r is None,
        },
{
    match value {
        Some(s) => Some(s.to_owned()),
        None => None,
    }
}

pub open spec fn mode_is_valid(mode: Option<Seq<char>>) -> bool {
    match mode {
        Some(m) => m == "stdout"@ || m == "dir"@,
        None => true,
    }
}

/// Where records go: `stdout` writes JSON lines after `prefix` (empty by
/// default); `dir`, or no mode at all, writes files to the stats directory;
/// any other mode is an error.
pub fn get_output_mode(
    mode: Option<&str>,
    prefix: Option<&str>,
    dir: Option<&str>,
    max_entries: Option<&str>,
) -> (r: Result<OutputMode, ConfigError>)
    ensures
        r is Err <==> !mode_is_valid(opt_text(mode)),
        r matches Err(e) ==> e == ConfigError::InvalidOutputMode,
        (mode matches Some(m) && m@ == "stdout"@) ==> (r matches Ok(OutputMode::JsonlToStdout(c))
            && c.prefix@ == text_or(opt_text(prefix), ""@)),
        (mode is None || (mode matches Some(m) && m@ == "dir"@)) ==> (r matches Ok(
            OutputMode::StatsDir(c),
        ) && c.dir@ == text_or(opt_text(dir), "/tmp/acolyte/stats"@) && c.max_stats_entries
            == get_max_stats_entries_spec(opt_text(max_entries))),
{
    proof {
        reveal_strlit("stdout");
        reveal_strlit("dir");
        assert("stdout"@.len() != "dir"@.len());
    }
    match mode {
        Some(m) => {
            if same_text(m, "stdout") {
                Ok(OutputMode::JsonlToStdout(JsonlToStdoutConfig { prefix: text_setting(prefix, "") }))
            } else if same_text(m, "dir") {
                Ok(
                    OutputMode::StatsDir(
                        StatsDirConfig {
                            dir: get_stats_dir(dir),
                            max_stats_entries: get_max_stats_entries(max_entries),
                        },
                    ),
                )
            } else {
                Err(ConfigError::InvalidOutputMode)
            }
        },
        None => Ok(
            OutputMode::StatsDir(
                StatsDirConfig {
                    dir: get_stats_dir(dir),
                    max_stats_entries: get_max_stats_entries(max_entries),
                },
            ),
        ),
    }
}

pub open spec fn get_max_stats_entries_spec(value: Option<Seq<char>>) -> usize {
    match value {
        Some(s) => match parse_usize_spec(s) {
            Some(v) => v,
            None => DEFAULT_MAX_STATS_ENTRIES,
        },
        None => DEFAULT_MAX_STATS_ENTRIES,
    }
}

fn as_str_opt(v: &Option<String>) -> (r: Option<&str>)
    ensures
        opt_text(r) == match v {
            Some(s) => Some(s@),
            None => None,
        },
{
    match v {
        Some(s) => Some(s.as_str()),
        None => None,
    }
}

impl Config {
    /// The configuration that the environment values describe; fails only
    /// on an unknown output mode.
    pub fn from_env(env: &ConfigEnv) -> (r: Result<Config, ConfigError>)
        ensures
            r is Err <==> !mode_is_valid(
                match env.output_mode {
                    Some(s) => Some(s@),
                    None => None,
                },
            ),
            r matches Ok(c) ==> c.stat_interval_ms == u64_or(
                match env.stat_interval_ms {
                    Some(s) => Some(s@),
                    None => None,
                },
                DEFAULT_STAT_INTERVAL_MS,
            ) && c.cpu_sample_interval_ms == u64_or(
                match env.cpu_sample_rate_ms {
                    Some(s) => Some(s@),
                    None => None,
                },
                DEFAULT_CPU_SAMPLE_MS,
            ) && c.cluster_name@ == text_or(
                match env.cluster_name {
                    Some(s) => Some(s@),
                    None => None,
                },
                "Unknown"@,
            ),
            r matches Ok(c) ==> (env.acolyte_id matches Some(id) && uuid_value(id@) is Some
                ==> c.acolyte_id == uuid_value(env.acolyte_id->0@)->0),
    {
        let output_mode = get_output_mode(
            as_str_opt(&env.output_mode),
            as_str_opt(&env.output_prefix),
            as_str_opt(&env.stats_dir),
            as_str_opt(&env.max_stats_entries),
        )?;
        Ok(
            Config {
                sentry_dsn: get_sentry_dsn(as_str_opt(&env.sentry_dsn)),
                acolyte_id: get_or_create_acolyte_id(as_str_opt(&env.acolyte_id)),
                cpu_sample_interval_ms: get_cpu_sample_ms(as_str_opt(&env.cpu_sample_rate_ms)),
                stat_interval_ms: get_stat_interval(as_str_opt(&env.stat_interval_ms)),
                cluster_name: get_cluster_name(as_str_opt(&env.cluster_name)),
                output_mode,
            },
        )
    }
}

} // verus!
