use feddit_archivieren::liveness::{
    daemon_running, pid_file_exists, read_pid_file, startup_decision, StartupDecision,
};

#[test]
fn record_existence_follows_the_file() {
    assert!(!pid_file_exists(&None));
    assert!(pid_file_exists(&Some(String::from("123"))));
}

#[test]
fn recorded_pid_is_the_first_line() {
    assert_eq!(read_pid_file(&Some(String::from("123\n"))), Ok(String::from("123")));
    assert_eq!(read_pid_file(&Some(String::from("123\n456"))), Ok(String::from("123")));
}

#[test]
fn empty_record_holds_no_pid() {
    assert_eq!(
        read_pid_file(&Some(String::new())),
        Err(String::from("Die PID Datei ist leer."))
    );
}

#[test]
fn record_with_empty_first_line_yields_it() {
    assert_eq!(read_pid_file(&Some(String::from("\n99"))), Ok(String::new()));
}

#[test]
fn liveness_needs_record_and_live_process() {
    assert!(!daemon_running(&None, true));
    assert!(!daemon_running(&None, false));
    assert!(!daemon_running(&Some(String::new()), true));
    assert!(!daemon_running(&Some(String::from("123")), false));
    assert!(daemon_running(&Some(String::from("123")), true));
}

#[test]
fn second_daemon_is_refused_while_one_is_alive() {
    assert_eq!(
        startup_decision(&Some(String::from("42")), true),
        StartupDecision::RefuseAlreadyRunning
    );
}

#[test]
fn stale_record_only_warns() {
    assert_eq!(
        startup_decision(&Some(String::from("42")), false),
        StartupDecision::StartDespiteStale
    );
    assert_eq!(
        startup_decision(&Some(String::new()), true),
        StartupDecision::StartDespiteStale
    );
}

#[test]
fn missing_record_starts_fresh() {
    assert_eq!(startup_decision(&None, false), StartupDecision::StartFresh);
}
