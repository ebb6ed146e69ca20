//! The liveness store: who may claim to be the daemon.
//!
//! A single PID record on disk is the source of truth for "is a daemon
//! instance currently alive". The record alone is not proof of life — a
//! crashed daemon leaves it behind — so liveness is the record *and* a
//! live process under the recorded PID. The driver hands this module
//! the record's content (or its absence) and the outcome of the process
//! probe; every decision made from them is verified.

use vstd::prelude::*;

use crate::text::{first_line, spec_first_line};

verus! {

/// Whether a PID record exists at all.
pub fn pid_file_exists(pid_file: &Option<String>) -> (r: bool)
    ensures
        r == (pid_file is Some),
{
    pid_file.is_some()
}

/// The recorded PID: the first line of the record. An empty record
/// holds no PID and is reported as such.
pub fn read_pid_file(pid_file: &Option<String>) -> (r: Result<String, String>)
    requires
        pid_file is Some,
    ensures
        (match r {
            Result::Ok(pid) => pid_file->0@.len() > 0 && pid@ == spec_first_line(pid_file->0@),
            Result::Err(m) => pid_file->0@.len() == 0 && m@ == "Die PID Datei ist leer."@,
        }),
{
    let content = pid_file.as_ref().unwrap();
    if content.as_str().is_empty() {
        Err("Die PID Datei ist leer.".to_owned())
    } else {
        Ok(first_line(content.as_str()))
    }
}

/// Liveness from one observation of the world: a PID record with a
/// recorded PID exists, and the operating system reports a live process
/// under that PID.
pub open spec fn spec_daemon_running(pid_file: Option<Seq<char>>, proc_alive: bool) -> bool {
    match pid_file {
        Option::Some(content) => content.len() > 0 && proc_alive,
        Option::None => false,
    }
}

/// Whether a daemon instance is alive, given the record's content and
/// the outcome of probing the recorded PID (`proc_alive` is ignored
/// when there is no recorded PID to probe).
pub fn daemon_running(pid_file: &Option<String>, proc_alive: bool) -> (r: bool)
    ensures
        r == spec_daemon_running(pid_file.deep_view(), proc_alive),
{
    match pid_file {
        Option::Some(content) => !content.as_str().is_empty() && proc_alive,
        Option::None => false,
    }
}

/// What a starting daemon must do after checking liveness.
#[derive(Clone, Copy, PartialEq, Eq, Structural, Debug)]
pub enum StartupDecision {
    /// No record: start normally.
    StartFresh,
    /// A record exists but no live process owns it. The record is
    /// stale; starting proceeds with an informational diagnostic, and
    /// cleanup is left to the operator.
    StartDespiteStale,
    /// A live daemon already owns the record: refuse to start, exit
    /// non-zero, and mutate nothing on disk.
    RefuseAlreadyRunning,
}

/// The startup rule: refuse exactly when a live daemon is detected;
/// otherwise start, noting a stale record when one is present.
pub open spec fn spec_startup_decision(
    pid_file: Option<Seq<char>>,
    proc_alive: bool,
) -> StartupDecision {
    if spec_daemon_running(pid_file, proc_alive) {
        StartupDecision::RefuseAlreadyRunning
    } else if pid_file is Some {
        StartupDecision::StartDespiteStale
    } else {
        StartupDecision::StartFresh
    }
}

/// Decides whether a starting daemon may proceed. It refuses if and
/// only if a live daemon is detected, so a second instance never starts
/// beside a live one, and a stale record alone never blocks a start.
pub fn startup_decision(pid_file: &Option<String>, proc_alive: bool) -> (d: StartupDecision)
    ensures
        d == spec_startup_decision(pid_file.deep_view(), proc_alive),
        (d is RefuseAlreadyRunning) == spec_daemon_running(pid_file.deep_view(), proc_alive),
{
    match pid_file {
        Option::None => StartupDecision::StartFresh,
        Option::Some(content) => {
            if !content.as_str().is_empty() && proc_alive {
                StartupDecision::RefuseAlreadyRunning
            } else {
                StartupDecision::StartDespiteStale
            }
        },
    }
}

} // verus!
