use feddit_archivieren::client_ops::{
    clean_exit_code, kill_permitted, listen_event, ping_reply_is_pong, restart_daemon,
    session_plan, start_plan, stop_daemon, update_plan, KillRefusal, ListenEvent, SessionPlan,
    StartPlan, StopError, UpdatePlan,
};

#[test]
fn stop_succeeds_on_ok_and_timely_exit() {
    assert_eq!(stop_daemon("ok", true), Ok(()));
}

#[test]
fn stop_reports_an_unexpected_reply() {
    assert_eq!(
        stop_daemon("unknown", true),
        Err(StopError::UnexpectedReply(String::from("unknown")))
    );
    assert_eq!(
        stop_daemon("", false),
        Err(StopError::UnexpectedReply(String::new()))
    );
}

#[test]
fn stop_reports_a_daemon_that_stays_alive() {
    assert_eq!(stop_daemon("ok", false), Err(StopError::StillRunning));
}

#[test]
fn restart_judges_like_stop() {
    assert_eq!(restart_daemon("ok", true), Ok(()));
    assert_eq!(restart_daemon("ok", false), Err(StopError::StillRunning));
    assert_eq!(
        restart_daemon("nein", true),
        Err(StopError::UnexpectedReply(String::from("nein")))
    );
}

#[test]
fn pong_is_the_only_healthy_reply() {
    assert!(ping_reply_is_pong("pong"));
    assert!(!ping_reply_is_pong("ok"));
    assert!(!ping_reply_is_pong(""));
}

#[test]
fn start_plan_variants() {
    assert_eq!(start_plan(false, false), StartPlan::Start);
    assert_eq!(start_plan(false, true), StartPlan::Start);
    assert_eq!(start_plan(true, false), StartPlan::RefuseAlreadyRunning);
    assert_eq!(start_plan(true, true), StartPlan::KillThenStart);
}

#[test]
fn kill_permitted_variants() {
    assert_eq!(kill_permitted(false, true), Err(KillRefusal::NotRunning));
    assert_eq!(kill_permitted(false, false), Err(KillRefusal::NotRunning));
    assert_eq!(kill_permitted(true, false), Err(KillRefusal::NotRoot));
    assert_eq!(kill_permitted(true, true), Ok(()));
}

#[test]
fn update_plan_variants() {
    assert_eq!(update_plan(true, false, true), UpdatePlan::KillThenUpdate);
    assert_eq!(update_plan(true, true, false), UpdatePlan::RefuseRunning);
    assert_eq!(update_plan(false, false, false), UpdatePlan::RefuseNotRoot);
    assert_eq!(update_plan(false, false, true), UpdatePlan::RefuseNotRoot);
    assert_eq!(update_plan(false, true, false), UpdatePlan::Update);
    assert_eq!(update_plan(false, true, true), UpdatePlan::Update);
}

#[test]
fn session_plan_variants() {
    assert_eq!(session_plan(true, false), SessionPlan::Proceed);
    assert_eq!(session_plan(true, true), SessionPlan::Proceed);
    assert_eq!(session_plan(false, true), SessionPlan::StartFirst);
    assert_eq!(session_plan(false, false), SessionPlan::RefuseNotRunning);
}

#[test]
fn clean_exit_code_reports_any_failure() {
    assert_eq!(clean_exit_code(false, false), 0);
    assert_eq!(clean_exit_code(true, false), 1);
    assert_eq!(clean_exit_code(false, true), 1);
    assert_eq!(clean_exit_code(true, true), 1);
}

#[test]
fn listen_classifies_received_messages() {
    assert_eq!(listen_event(""), ListenEvent::ConnectionClosed);
    assert_eq!(listen_event("restart"), ListenEvent::DaemonRestarting);
    assert_eq!(listen_event("ReStArT"), ListenEvent::DaemonRestarting);
    assert_eq!(listen_event("  restart \n"), ListenEvent::DaemonRestarting);
    assert_eq!(listen_event("restarting"), ListenEvent::Line);
    assert_eq!(listen_event("eine Logzeile"), ListenEvent::Line);
    assert_eq!(listen_event(" \n "), ListenEvent::Line);
}
