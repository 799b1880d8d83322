//! The restart policy: what to do when a run of the sampling loop ends, and
//! the environment contract that carries the attempt count and the agent's
//! identity into the replacement process.
use crate::decimal::{decimal_text, lemma_decimal_round_trip, parse_u8, parse_u8_spec, to_decimal};
use vstd::prelude::*;

verus! {

/// Runs allowed in all; the run that would exceed it ends the process.
pub const MAX_RUN_ATTEMPTS: u8 = 5;

/// Seconds to wait before a restarted run.
pub const RESTART_DELAY_SECS: u64 = 10;

/// Carries the attempt count into the replacement process.
pub const RESTART_ENV_VAR: &'static str = "ACOLYTE_RESTART";

/// Carries the agent identity into the replacement process.
pub const ID_ENV_VAR: &'static str = "ACOLYTE_ID";

/// Set to a non-empty value to run once, without restarts.
pub const NO_RESTART_ENV_VAR: &'static str = "ACOLYTE_NO_RESTART";

/// How a run of the sampling loop ended.
#[derive(Debug, Clone, Copy, PartialEq, Eq, Structural)]
pub enum RunOutcome {
    /// The loop returned: an intentional shutdown.
    Finished,
    /// A fault was caught at the run's boundary.
    Crashed,
}

/// What the supervisor does next.
#[derive(Debug, Clone, Copy, PartialEq, Eq, Structural)]
pub enum SupervisorAction {
    /// Exit with status 0.
    ExitClean,
    /// Exit with status 1; no further restart.
    ExitFatal,
    /// Replace the process with a new run numbered `attempt`.
    Restart { attempt: u8 },
}

impl SupervisorAction {
    pub open spec fn exit_status(self) -> Option<i32> {
        match self {
            SupervisorAction::ExitClean => Some(0),
            SupervisorAction::ExitFatal => Some(1),
            SupervisorAction::Restart { .. } => None,
        }
    }

    /// The process exit status, if the action ends the process.
    pub fn exit_code(&self) -> (r: Option<i32>)
        ensures
            r == self.exit_status(),
    {
        match self {
            SupervisorAction::ExitClean => Some(0),
            SupervisorAction::ExitFatal => Some(1),
            SupervisorAction::Restart { .. } => None,
        }
    }
}

pub open spec fn after_run(attempt: u8, outcome: RunOutcome) -> SupervisorAction {
    match outcome {
        RunOutcome::Finished => SupervisorAction::ExitClean,
        RunOutcome::Crashed => if attempt + 1 >= MAX_RUN_ATTEMPTS {
            SupervisorAction::ExitFatal
        } else {
            SupervisorAction::Restart { attempt: (attempt + 1) as u8 }
        },
    }
}

/// Decides what follows run number `attempt` (counted from 0): a finished
/// run exits cleanly; a crash restarts with the next number, unless that
/// number reaches `MAX_RUN_ATTEMPTS`, which is fatal.
pub fn on_run_finished(attempt: u8, outcome: RunOutcome) -> (r: SupervisorAction)
    ensures
        r == after_run(attempt, outcome),
{
    match outcome {
        RunOutcome::Finished => SupervisorAction::ExitClean,
        RunOutcome::Crashed => if attempt >= MAX_RUN_ATTEMPTS - 1 {
            SupervisorAction::ExitFatal
        } else {
            SupervisorAction::Restart { attempt: attempt + 1 }
        },
    }
}

pub open spec fn restart_count_of(value: Option<Seq<char>>) -> u8 {
    match value {
        Some(s) => match parse_u8_spec(s) {
            Some(n) => n,
            None => 0,
        },
        None => 0,
    }
}

/// The attempt number from the value of `RESTART_ENV_VAR`; absent or
/// unreadable means 0.
pub fn get_restart_count(value: Option<&str>) -> (r: u8)
    ensures
        r == restart_count_of(
            match value {
                Some(s) => Some(s@),
                None => None,
            },
        ),
{
    match value {
        Some(s) => match parse_u8(s) {
            Some(n) => n,
            None => 0,
        },
        None => 0,
    }
}

/// Seconds to wait before run number `attempt` starts.
pub fn start_delay_secs(attempt: u8) -> (r: u64)
    ensures
        r == if attempt > 0 {
            RESTART_DELAY_SECS
        } else {
            0
        },
{
    if attempt > 0 {
        RESTART_DELAY_SECS
    } else {
        0
    }
}

/// Whether the value of `NO_RESTART_ENV_VAR` asks for a single run.
pub fn is_no_restart(value: Option<&str>) -> (r: bool)
    ensures
        r == (value matches Some(s) && s@.len() > 0),
{
    match value {
        Some(s) => !s.is_empty(),
        None => false,
    }
}

pub open spec fn hex_lower(d: u128) -> char {
    seq!['0', '1', '2', '3', '4', '5', '6', '7', '8', '9', 'a', 'b', 'c', 'd', 'e', 'f'][d as int]
}

/// The `k`-th hexadecimal digit of `id`, most significant first.
pub open spec fn nibble(id: u128, k: int) -> u128 {
    (id >> ((124 - 4 * k) as u128)) & 0xf
}

/// The hyphenated lowercase form `xxxxxxxx-xxxx-xxxx-xxxx-xxxxxxxxxxxx`.
pub open spec fn uuid_hyphenated(id: u128) -> Seq<char> {
    Seq::new(
        36,
        |i: int|
            if i == 8 || i == 13 || i == 18 || i == 23 {
                '-'
            } else {
                let k = if i < 8 {
                    i
                } else if i < 13 {
                    i - 1
                } else if i < 18 {
                    i - 2
                } else if i < 23 {
                    i - 3
                } else {
                    i - 4
                };
                hex_lower(nibble(id, k))
            },
    )
}

/// The identity, as a number, that a text denotes in one of the forms that
/// the `uuid` crate reads; `None` for any other text.
pub uninterp spec fn uuid_value(s: Seq<char>) -> Option<u128>;

/// Relies on `uuid::Uuid::parse_str`, which reads the simple, hyphenated,
/// braced and URN forms, and on `Uuid::as_u128`.
#[verifier::external_body]
fn parse_agent_id(s: &str) -> (r: Option<u128>)
    ensures
        r == uuid_value(s@),
{
    uuid::Uuid::parse_str(s).ok().map(|u| u.as_u128())
}

/// Relies on `uuid::Uuid::new_v4`: a fresh random identity.
#[verifier::external_body]
fn new_agent_id() -> (r: u128) {
    uuid::Uuid::new_v4().as_u128()
}

/// Relies on `uuid::Uuid::from_u128` and on `Display` for `Uuid`, which
/// writes the hyphenated lowercase form, and on `Uuid::parse_str` reading
/// that form back into the same bytes.
#[verifier::external_body]
fn agent_id_text(id: u128) -> (r: String)
    ensures
        r@ == uuid_hyphenated(id),
        uuid_value(r@) == Some(id),
{
    uuid::Uuid::from_u128(id).to_string()
}

/// The agent identity from the value of `ID_ENV_VAR`; a fresh one when the
/// value is absent or is no identity.
pub fn get_or_create_acolyte_id(value: Option<&str>) -> (r: u128)
    ensures
        value matches Some(s) && uuid_value(s@) is Some ==> r == uuid_value(value->0@)->0,
{
    match value {
        Some(s) => match parse_agent_id(s) {
            Some(id) => id,
            None => new_agent_id(),
        },
        None => new_agent_id(),
    }
}

/// The variables to set for the replacement process: the attempt count in
/// decimal and the identity in hyphenated form.
pub open spec fn restart_env_spec(attempt: u8, identity: u128) -> Seq<(Seq<char>, Seq<char>)> {
    seq![(RESTART_ENV_VAR@, to_decimal(attempt as nat)), (ID_ENV_VAR@, uuid_hyphenated(identity))]
}

pub open spec fn pair_views(v: Seq<(String, String)>) -> Seq<(Seq<char>, Seq<char>)> {
    v.map_values(|p: (String, String)| (p.0@, p.1@))
}

pub fn restart_environment(attempt: u8, identity: u128) -> (r: Vec<(String, String)>)
    ensures
        pair_views(r@) == restart_env_spec(attempt, identity),
        uuid_value(pair_views(r@)[1].1) == Some(identity),
{
    let mut env: Vec<(String, String)> = Vec::new();
    env.push((RESTART_ENV_VAR.to_owned(), decimal_text(attempt as u64)));
    env.push((ID_ENV_VAR.to_owned(), agent_id_text(identity)));
    proof {
        assert(pair_views(env@) =~= restart_env_spec(attempt, identity));
    }
    env
}

/// Restart bookkeeping: from run 0, each of the first four crashes restarts
/// with the next run number, which the replacement process reads back from
/// its environment, and with the same identity text every time; the fifth
/// crash, whose number would reach the maximum, is fatal.
pub proof fn lemma_restart_bookkeeping(identity: u128)
    ensures
        forall|a: u8|
            a < 4 ==> (after_run(a, RunOutcome::Crashed) == (SupervisorAction::Restart {
                attempt: (a + 1) as u8,
            })) && restart_count_of(Some(restart_env_spec((a + 1) as u8, identity)[0].1)) == a + 1,
        after_run(4, RunOutcome::Crashed) == SupervisorAction::ExitFatal,
        forall|a: u8, b: u8|
            restart_env_spec(a, identity)[1].1 == restart_env_spec(b, identity)[1].1,
        forall|a: u8| after_run(a, RunOutcome::Finished) == SupervisorAction::ExitClean,
{
    assert forall|a: u8| a < 4 implies (after_run(a, RunOutcome::Crashed) == (
    SupervisorAction::Restart { attempt: (a + 1) as u8 })) && restart_count_of(
        Some(restart_env_spec((a + 1) as u8, identity)[0].1),
    ) == a + 1 by {
        lemma_decimal_round_trip((a + 1) as nat);
    }
}

} // verus!
