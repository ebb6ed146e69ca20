use feddit_archivieren::coordinator::{Coordinator, Phase};

#[test]
fn fresh_coordinator_runs() {
    let c = Coordinator::new();
    assert!(c.running());
    assert_eq!(c.phase, Phase::Running);
    assert!(!c.flushed);
}

#[test]
fn clean_shutdown_walks_the_phases_in_order() {
    let mut c = Coordinator::new();
    c.begin_shutdown();
    assert_eq!(c.phase, Phase::FlagCleared);
    assert!(!c.running());
    c.farewell_sent();
    assert_eq!(c.phase, Phase::FarewellSent);
    assert!(!c.flushed);
    c.state_flushed();
    assert_eq!(c.phase, Phase::StateFlushed);
    assert!(c.flushed);
    c.workers_waited(true);
    assert_eq!(c.phase, Phase::WorkersWaited);
    assert!(!c.degraded);
    let reply = c.reply_ok();
    assert_eq!(reply, "ok");
    assert_eq!(c.phase, Phase::Replied);
    assert!(c.flushed);
    assert!(!c.running());
}

#[test]
fn worker_timeout_is_recorded_as_degraded_but_still_confirmed() {
    let mut c = Coordinator::new();
    c.begin_shutdown();
    c.farewell_sent();
    c.state_flushed();
    c.workers_waited(false);
    assert!(c.degraded);
    assert_eq!(c.reply_ok(), "ok");
    assert_eq!(c.phase, Phase::Replied);
}

#[test]
fn flag_falls_once_and_stays_down() {
    let mut c = Coordinator::new();
    assert!(c.running());
    c.begin_shutdown();
    assert!(!c.running());
    c.farewell_sent();
    assert!(!c.running());
    c.state_flushed();
    assert!(!c.running());
    c.workers_waited(true);
    assert!(!c.running());
    c.reply_ok();
    assert!(!c.running());
}

#[test]
fn ok_comes_only_with_the_state_flushed() {
    let mut c = Coordinator::new();
    c.begin_shutdown();
    c.farewell_sent();
    c.state_flushed();
    c.workers_waited(true);
    c.reply_ok();
    assert!(c.flushed);
}
