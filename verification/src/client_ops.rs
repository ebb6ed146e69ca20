//! Client-side rules of the control plane.
//!
//! The command-line client reads liveness, sends one command over the
//! control channel, and judges the daemon's reply. The I/O around each
//! command stays in the driver; the rule of each command — when it may
//! run, what counts as success, which error it reports — is verified
//! here.

use vstd::prelude::*;

verus! {

/// How a stop or restart request ended on the client side.
#[derive(Debug, PartialEq, Eq)]
pub enum StopError {
    /// The daemon answered something other than `ok`; the payload is
    /// the reply received.
    UnexpectedReply(String),
    /// The daemon confirmed with `ok` but was still alive when the
    /// bounded wait for its exit ran out.
    StillRunning,
}

/// Judges a stop request: it succeeded exactly when the daemon replied
/// `ok` and was gone within the bounded wait. Any other reply is
/// reported as unexpected, with the reply; an `ok` from a daemon that
/// then stays alive is reported as such.
pub fn stop_daemon(response: &str, stopped_within_timeout: bool) -> (r: Result<(), StopError>)
    ensures
        (match r {
            Result::Ok(()) => response@ == "ok"@ && stopped_within_timeout,
            Result::Err(StopError::UnexpectedReply(m)) => response@ != "ok"@ && m@ == response@,
            Result::Err(StopError::StillRunning) => response@ == "ok"@ && !stopped_within_timeout,
        }),
{
    if !crate::text::str_eq(response, "ok") {
        Err(StopError::UnexpectedReply(response.to_owned()))
    } else if !stopped_within_timeout {
        Err(StopError::StillRunning)
    } else {
        Ok(())
    }
}

/// Judges a restart request. The wire exchange is the one of `stop` —
/// `ok`, then the old instance's exit within the bounded wait — and so
/// is the judgement; the client then watches for the new instance on
/// its own.
pub fn restart_daemon(response: &str, stopped_within_timeout: bool) -> (r: Result<(), StopError>)
    ensures
        (match r {
            Result::Ok(()) => response@ == "ok"@ && stopped_within_timeout,
            Result::Err(StopError::UnexpectedReply(m)) => response@ != "ok"@ && m@ == response@,
            Result::Err(StopError::StillRunning) => response@ == "ok"@ && !stopped_within_timeout,
        }),
{
    stop_daemon(response, stopped_within_timeout)
}

/// Whether a healthy daemon's probe reply came back: exactly `pong`.
pub fn ping_reply_is_pong(reply: &str) -> (r: bool)
    ensures
        r == (reply@ == "pong"@),
{
    crate::text::str_eq(reply, "pong")
}

/// What the `start` command must do.
#[derive(Clone, Copy, PartialEq, Eq, Structural, Debug)]
pub enum StartPlan {
    /// No daemon runs: start one.
    Start,
    /// A daemon runs and force was given: kill it, then start.
    KillThenStart,
    /// A daemon runs and force was not given: refuse, exit non-zero.
    RefuseAlreadyRunning,
}

/// The rule of `start`: a running daemon blocks a plain start and is
/// killed first under force.
pub fn start_plan(running: bool, force: bool) -> (g: StartPlan)
    ensures
        g == (if running && !force {
            StartPlan::RefuseAlreadyRunning
        } else if running {
            StartPlan::KillThenStart
        } else {
            StartPlan::Start
        }),
{
    if running && !force {
        StartPlan::RefuseAlreadyRunning
    } else if running {
        StartPlan::KillThenStart
    } else {
        StartPlan::Start
    }
}

/// Why a `kill` request is refused.
#[derive(Clone, Copy, PartialEq, Eq, Structural, Debug)]
pub enum KillRefusal {
    /// Nothing to kill.
    NotRunning,
    /// Killing the daemon needs the superuser.
    NotRoot,
}

/// The rule of `kill`, the unsafe escape hatch that bypasses the
/// coordinator and all state persistence: only a running daemon can be
/// killed, and only by the superuser.
pub fn kill_permitted(running: bool, is_root: bool) -> (r: Result<(), KillRefusal>)
    ensures
        (match r {
            Result::Ok(()) => running && is_root,
            Result::Err(KillRefusal::NotRunning) => !running,
            Result::Err(KillRefusal::NotRoot) => running && !is_root,
        }),
{
    if !running {
        Err(KillRefusal::NotRunning)
    } else if !is_root {
        Err(KillRefusal::NotRoot)
    } else {
        Ok(())
    }
}

/// What the `update` command must do.
#[derive(Clone, Copy, PartialEq, Eq, Structural, Debug)]
pub enum UpdatePlan {
    /// Run the update.
    Update,
    /// Force was given while a daemon runs: kill it, then update.
    KillThenUpdate,
    /// A daemon runs and force was not given: refuse.
    RefuseRunning,
    /// The caller is not the superuser: refuse.
    RefuseNotRoot,
}

/// The rule of `update`: without force it needs a stopped daemon and
/// the superuser; with force a running daemon is killed first.
pub fn update_plan(running: bool, is_root: bool, force: bool) -> (g: UpdatePlan)
    ensures
        g == (if force && running {
            UpdatePlan::KillThenUpdate
        } else if running {
            UpdatePlan::RefuseRunning
        } else if !is_root {
            UpdatePlan::RefuseNotRoot
        } else {
            UpdatePlan::Update
        }),
{
    if force && running {
        UpdatePlan::KillThenUpdate
    } else if running {
        UpdatePlan::RefuseRunning
    } else if !is_root {
        UpdatePlan::RefuseNotRoot
    } else {
        UpdatePlan::Update
    }
}

/// What a command that talks to a running daemon (`stop`, `listen`,
/// `checkhealth`) must do first.
#[derive(Clone, Copy, PartialEq, Eq, Structural, Debug)]
pub enum SessionPlan {
    /// The daemon runs: proceed.
    Proceed,
    /// No daemon runs and force was given: start one first.
    StartFirst,
    /// No daemon runs: refuse, exit non-zero.
    RefuseNotRunning,
}

/// The rule of the commands that need a live daemon: a missing daemon
/// refuses them, or is started first under force.
pub fn session_plan(running: bool, force: bool) -> (g: SessionPlan)
    ensures
        g == (if running {
            SessionPlan::Proceed
        } else if force {
            SessionPlan::StartFirst
        } else {
            SessionPlan::RefuseNotRunning
        }),
{
    if running {
        SessionPlan::Proceed
    } else if force {
        SessionPlan::StartFirst
    } else {
        SessionPlan::RefuseNotRunning
    }
}

/// Whether `c` is one of the blank characters stripped from a received
/// line before it is compared: space, tab, or a line break.
pub open spec fn is_blank(c: char) -> bool {
    c == ' ' || c == '\t' || c == '\n' || c == '\r'
}

/// `s` without its leading blank characters.
pub open spec fn spec_trim_start(s: Seq<char>) -> Seq<char>
    decreases s.len(),
{
    if s.len() > 0 && is_blank(s[0]) {
        spec_trim_start(s.skip(1))
    } else {
        s
    }
}

/// `s` without its trailing blank characters.
pub open spec fn spec_trim_end(s: Seq<char>) -> Seq<char>
    decreases s.len(),
{
    if s.len() > 0 && is_blank(s.last()) {
        spec_trim_end(s.drop_last())
    } else {
        s
    }
}

/// `s` without blank characters at either end.
pub open spec fn spec_trim(s: Seq<char>) -> Seq<char> {
    spec_trim_end(spec_trim_start(s))
}

/// Whether `t` spells the word `restart`, in either letter case.
pub open spec fn spec_is_restart_word(t: Seq<char>) -> bool {
    &&& t.len() == 7
    &&& (t[0] == 'r' || t[0] == 'R')
    &&& (t[1] == 'e' || t[1] == 'E')
    &&& (t[2] == 's' || t[2] == 'S')
    &&& (t[3] == 't' || t[3] == 'T')
    &&& (t[4] == 'a' || t[4] == 'A')
    &&& (t[5] == 'r' || t[5] == 'R')
    &&& (t[6] == 't' || t[6] == 'T')
}

/// Trimming from the front keeps exactly the suffix from the first
/// non-blank character.
proof fn lemma_trim_start_skip(s: Seq<char>, k: int)
    requires
        0 <= k <= s.len(),
        forall|j: int| 0 <= j < k ==> is_blank(s[j]),
        k < s.len() ==> !is_blank(s[k]),
    ensures
        spec_trim_start(s) == s.skip(k),
    decreases k,
{
    if k == 0 {
        assert(s.skip(0) =~= s);
    } else {
        lemma_trim_start_skip(s.skip(1), k - 1);
        assert(s.skip(1).skip(k - 1) =~= s.skip(k));
    }
}

/// Trimming from the back keeps exactly the prefix up to the last
/// non-blank character.
proof fn lemma_trim_end_take(s: Seq<char>, e: int)
    requires
        0 <= e <= s.len(),
        forall|j: int| e <= j < s.len() ==> is_blank(s[j]),
        e > 0 ==> !is_blank(s[e - 1]),
    ensures
        spec_trim_end(s) == s.take(e),
    decreases s.len(),
{
    if s.len() == e {
        assert(s.take(e) =~= s);
    } else {
        assert(is_blank(s.last()));
        lemma_trim_end_take(s.drop_last(), e);
        assert(s.drop_last().take(e) =~= s.take(e));
    }
}

/// Whether `c` is a blank character.
fn blank_char(c: char) -> (r: bool)
    ensures
        r == is_blank(c),
{
    c == ' ' || c == '\t' || c == '\n' || c == '\r'
}

/// `s` with blank characters stripped from both ends.
fn trimmed(s: &str) -> (r: String)
    ensures
        r@ == spec_trim(s@),
{
    let n = s.unicode_len();
    let mut start: usize = 0;
    while start < n && blank_char(s.get_char(start))
        invariant
            n == s@.len(),
            start <= n,
            forall|j: int| 0 <= j < start ==> is_blank(s@[j]),
        decreases n - start,
    {
        start = start + 1;
    }
    let mut end: usize = n;
    while end > start && blank_char(s.get_char(end - 1))
        invariant
            n == s@.len(),
            start <= end <= n,
            forall|j: int| 0 <= j < start ==> is_blank(s@[j]),
            forall|j: int| end <= j < n ==> is_blank(s@[j]),
        decreases end,
    {
        end = end - 1;
    }
    let middle = s.substring_char(start, end);
    proof {
        lemma_trim_start_skip(s@, start as int);
        let tail = s@.skip(start as int);
        assert forall|j: int| end - start <= j < tail.len() implies is_blank(tail[j]) by {
            assert(tail[j] == s@[j + start]);
        }
        if end > start {
            assert(!is_blank(tail[end - start - 1]));
        }
        lemma_trim_end_take(tail, end - start);
        assert(middle@ =~= tail.take(end - start));
    }
    middle.to_owned()
}

/// What a `listen` client must do with one received message.
#[derive(Clone, Copy, PartialEq, Eq, Structural, Debug)]
pub enum ListenEvent {
    /// An empty read: the daemon closed the connection; leave.
    ConnectionClosed,
    /// The daemon announced a restart: wait for the old instance to go
    /// down and the new one to come up, then subscribe again.
    DaemonRestarting,
    /// An ordinary log line: print it.
    Line,
}

/// Classifies one message received by a `listen` client: nothing means
/// the connection is gone, the word `restart` (in any letter case,
/// blanks around it ignored) announces a restart, and anything else is
/// a log line to show.
pub fn listen_event(response: &str) -> (e: ListenEvent)
    ensures
        e == (if response@.len() == 0 {
            ListenEvent::ConnectionClosed
        } else if spec_is_restart_word(spec_trim(response@)) {
            ListenEvent::DaemonRestarting
        } else {
            ListenEvent::Line
        }),
{
    if response.is_empty() {
        return ListenEvent::ConnectionClosed;
    }
    let t = trimmed(response);
    let t_str = t.as_str();
    if t_str.unicode_len() != 7 {
        return ListenEvent::Line;
    }
    let word_matches = {
        let c0 = t_str.get_char(0);
        let c1 = t_str.get_char(1);
        let c2 = t_str.get_char(2);
        let c3 = t_str.get_char(3);
        let c4 = t_str.get_char(4);
        let c5 = t_str.get_char(5);
        let c6 = t_str.get_char(6);
        (c0 == 'r' || c0 == 'R') && (c1 == 'e' || c1 == 'E') && (c2 == 's' || c2 == 'S') && (c3
            == 't' || c3 == 'T') && (c4 == 'a' || c4 == 'A') && (c5 == 'r' || c5 == 'R') && (c6
            == 't' || c6 == 'T')
    };
    if word_matches {
        ListenEvent::DaemonRestarting
    } else {
        ListenEvent::Line
    }
}

/// The exit status of `clean`: zero only when every removal that was
/// attempted succeeded.
pub fn clean_exit_code(run_dir_failed: bool, update_dir_failed: bool) -> (code: i32)
    ensures
        code == (if run_dir_failed || update_dir_failed {
            1int
        } else {
            0int
        }),
{
    if run_dir_failed || update_dir_failed {
        1
    } else {
        0
    }
}

} // verus!
