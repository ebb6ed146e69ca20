//! One full daemon lifetime, walked through the library's state
//! machines the way the driver walks it at run time.

use feddit_archivieren::client_ops::{start_plan, stop_daemon, StartPlan};
use feddit_archivieren::coordinator::{Coordinator, Phase};
use feddit_archivieren::frame::{
    dispatch, farewell_text, immediate_reply, parse_command, to_rust_string, Command,
    HandlerAction,
};
use feddit_archivieren::liveness::{daemon_running, startup_decision, StartupDecision};
use feddit_archivieren::registry::Registry;
use feddit_archivieren::save::{read_save, write_save, Speicherstand};
use feddit_archivieren::text::displayed_first_line;

fn frame_of(msg: &[u8]) -> [u8; 1024] {
    let mut buf = [0u8; 1024];
    buf[..msg.len()].copy_from_slice(msg);
    buf
}

#[test]
fn full_lifecycle_from_start_to_stop() {
    // No daemon runs: the client's `start` proceeds and the new
    // daemon's startup check lets it come up.
    assert!(!daemon_running(&None, false));
    assert_eq!(start_plan(false, false), StartPlan::Start);
    assert_eq!(startup_decision(&None, false), StartupDecision::StartFresh);

    // The daemon records itself and publishes its address; `info` now
    // reports it running, with a non-empty port and PID.
    let pid_record = Some(String::from("4242\n"));
    let rendezvous = "127.0.0.1:35951";
    assert!(daemon_running(&pid_record, true));
    let port_shown = displayed_first_line(rendezvous);
    let pid_shown = displayed_first_line("4242\n");
    assert!(!port_shown.is_empty());
    assert!(!pid_shown.is_empty());
    assert_eq!(port_shown, "127.0.0.1:35951");
    assert_eq!(pid_shown, "4242");

    // One connection subscribes, another probes.
    let mut registry = Registry::new();
    let mut coordinator = Coordinator::new();
    assert!(coordinator.running());

    let listen_cmd = parse_command(&to_rust_string(&frame_of(b"listen")));
    assert_eq!(listen_cmd, Command::Listen);
    assert_eq!(dispatch(&listen_cmd), HandlerAction::EnrollListener);
    assert_eq!(immediate_reply(&listen_cmd), Some("Hallo!"));
    registry.subscribe(1);
    assert_eq!(registry.len(), 1);

    let ping_cmd = parse_command(&to_rust_string(&frame_of(b"ping")));
    assert_eq!(dispatch(&ping_cmd), HandlerAction::ReplyPong);
    assert_eq!(immediate_reply(&ping_cmd), Some("pong"));

    // The subscriber sees the daemon's own status broadcasts.
    registry.record_broadcast("Daemon erfolgreich gestartet.", &vec![true]);
    assert_eq!(registry.len(), 1);

    // `stop` arrives: the coordinated sequence runs in order, the
    // subscribers get the farewell, the state is flushed, and only then
    // does the client see `ok`.
    let stop_cmd = parse_command(&to_rust_string(&frame_of(b"stop")));
    assert_eq!(dispatch(&stop_cmd), HandlerAction::BeginShutdown);
    assert_eq!(immediate_reply(&stop_cmd), None);

    coordinator.begin_shutdown();
    assert!(!coordinator.running());

    registry.record_broadcast(farewell_text(), &vec![true]);
    coordinator.farewell_sent();

    let state = Speicherstand {
        url: String::from("https://lemmy.ml/api/v3/post/list"),
        post_ids: vec![11, 12],
    };
    let saved = write_save(&state);
    coordinator.state_flushed();

    coordinator.workers_waited(true);
    let reply = coordinator.reply_ok();
    assert_eq!(reply, "ok");
    assert_eq!(coordinator.phase, Phase::Replied);
    assert!(coordinator.flushed);

    // The client judges the exchange and the daemon is gone.
    assert_eq!(stop_daemon(reply, true), Ok(()));
    assert!(!daemon_running(&pid_record, false));
    assert!(!daemon_running(&None, false));

    // The next start resumes from exactly the flushed state.
    let resumed = read_save(&saved).expect("der gesicherte Stand muss lesbar sein");
    assert_eq!(resumed.url, state.url);
    assert_eq!(resumed.post_ids, state.post_ids);
}
