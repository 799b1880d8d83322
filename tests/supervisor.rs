use acolyte::supervisor::{
    get_or_create_acolyte_id, get_restart_count, is_no_restart, on_run_finished,
    restart_environment, start_delay_secs, RunOutcome, SupervisorAction, ID_ENV_VAR,
    MAX_RUN_ATTEMPTS, RESTART_ENV_VAR,
};

const ID_TEXT: &str = "67e55044-10b1-426f-9247-bb680e5fe0c8";
const ID_VALUE: u128 = 0x67e5504410b1426f9247bb680e5fe0c8;

#[test]
fn five_crashes_end_in_a_fatal_exit_with_one_identity() {
    let identity = get_or_create_acolyte_id(None);
    let mut env: Vec<(String, String)> = Vec::new();
    let mut texts: Vec<String> = Vec::new();
    let mut actions = Vec::new();
    for _ in 0..5 {
        let attempt = get_restart_count(
            env.iter().find(|(k, _)| k == RESTART_ENV_VAR).map(|(_, v)| v.as_str()),
        );
        let id = get_or_create_acolyte_id(
            env.iter().find(|(k, _)| k == ID_ENV_VAR).map(|(_, v)| v.as_str()),
        );
        let id = if env.is_empty() { identity } else { id };
        let action = on_run_finished(attempt, RunOutcome::Crashed);
        actions.push(action);
        if let SupervisorAction::Restart { attempt: next } = action {
            env = restart_environment(next, id);
            texts.push(env[1].1.clone());
        }
    }
    assert_eq!(
        actions,
        vec![
            SupervisorAction::Restart { attempt: 1 },
            SupervisorAction::Restart { attempt: 2 },
            SupervisorAction::Restart { attempt: 3 },
            SupervisorAction::Restart { attempt: 4 },
            SupervisorAction::ExitFatal,
        ]
    );
    assert_eq!(texts.len(), 4);
    assert!(texts.iter().all(|t| t == &texts[0]));
    assert_eq!(texts[0].len(), 36);
    assert_eq!(MAX_RUN_ATTEMPTS, 5);
}

#[test]
fn finished_run_exits_cleanly() {
    let a = on_run_finished(0, RunOutcome::Finished);
    assert_eq!(a, SupervisorAction::ExitClean);
    assert_eq!(a.exit_code(), Some(0));
    assert_eq!(on_run_finished(4, RunOutcome::Crashed).exit_code(), Some(1));
    assert_eq!(on_run_finished(255, RunOutcome::Crashed), SupervisorAction::ExitFatal);
    assert_eq!(on_run_finished(1, RunOutcome::Crashed).exit_code(), None);
}

#[test]
fn restart_count_reading() {
    assert_eq!(get_restart_count(None), 0);
    assert_eq!(get_restart_count(Some("3")), 3);
    assert_eq!(get_restart_count(Some("+3")), 3);
    assert_eq!(get_restart_count(Some("three")), 0);
    assert_eq!(get_restart_count(Some("256")), 0);
    assert_eq!(get_restart_count(Some("")), 0);
}

#[test]
fn backoff_only_after_a_restart() {
    assert_eq!(start_delay_secs(0), 0);
    assert_eq!(start_delay_secs(1), 10);
}

#[test]
fn no_restart_needs_a_non_empty_value() {
    assert!(!is_no_restart(None));
    assert!(!is_no_restart(Some("")));
    assert!(is_no_restart(Some("1")));
}

#[test]
fn identity_is_read_from_any_uuid_form() {
    assert_eq!(get_or_create_acolyte_id(Some(ID_TEXT)), ID_VALUE);
    assert_eq!(get_or_create_acolyte_id(Some("67E55044-10B1-426F-9247-BB680E5FE0C8")), ID_VALUE);
    assert_eq!(get_or_create_acolyte_id(Some("67e5504410b1426f9247bb680e5fe0c8")), ID_VALUE);
}

#[test]
fn invalid_identity_is_replaced() {
    let a = get_or_create_acolyte_id(Some("not-an-id"));
    let b = get_or_create_acolyte_id(Some("not-an-id"));
    assert_ne!(a, b);
}

#[test]
fn restart_environment_carries_count_and_identity() {
    let env = restart_environment(3, ID_VALUE);
    assert_eq!(
        env,
        vec![
            ("ACOLYTE_RESTART".to_string(), "3".to_string()),
            ("ACOLYTE_ID".to_string(), ID_TEXT.to_string()),
        ]
    );
    let env = restart_environment(200, 0);
    assert_eq!(env[0].1, "200");
    assert_eq!(env[1].1, "00000000-0000-0000-0000-000000000000");
    assert_eq!(get_or_create_acolyte_id(Some(&restart_environment(1, ID_VALUE)[1].1)), ID_VALUE);
}

#[test]
fn restarted_process_reads_back_its_identity() {
    let first = get_or_create_acolyte_id(None);
    let mut id = first;
    for attempt in 1..5u8 {
        let env = restart_environment(attempt, id);
        assert_eq!(get_restart_count(Some(&env[0].1)), attempt);
        id = get_or_create_acolyte_id(Some(&env[1].1));
        assert_eq!(id, first);
    }
}
