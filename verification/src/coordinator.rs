//! The shutdown/restart coordinator.
//!
//! A `stop` or `restart` command moves the daemon from `Running` into a
//! terminal shutdown sequence with a fixed order: clear the shared
//! running flag, send the farewell broadcast and close the subscribers,
//! flush the persisted work state, wait (bounded) for the background
//! workers, and only then write `ok` to the requesting client. The
//! driver performs each outside action and advances this machine, which
//! enforces the order: the reply step is unreachable until the flush
//! step is confirmed, so `ok` is never written before the state is
//! durably saved. A flush that fails leaves the machine short of the
//! reply step; the daemon then exits without confirming, and the client
//! sees no `ok`.

use vstd::prelude::*;

verus! {

/// Where the shutdown sequence stands. The phases only ever advance;
/// the machine never returns to `Running`.
#[derive(Clone, Copy, PartialEq, Eq, Structural, Debug)]
pub enum Phase {
    /// Normal operation; the shared running flag is set.
    Running,
    /// The running flag was cleared under exclusive access; every
    /// worker sees it on its next cycle.
    FlagCleared,
    /// The farewell notice went out and the subscriber connections are
    /// closed.
    FarewellSent,
    /// The persisted work state was flushed to durable storage.
    StateFlushed,
    /// The bounded wait for the workers ended, cleanly or by timeout.
    WorkersWaited,
    /// `ok` was handed to the requesting connection; the process exits.
    Replied,
}

/// The order of the phases.
pub open spec fn phase_index(p: Phase) -> int {
    match p {
        Phase::Running => 0,
        Phase::FlagCleared => 1,
        Phase::FarewellSent => 2,
        Phase::StateFlushed => 3,
        Phase::WorkersWaited => 4,
        Phase::Replied => 5,
    }
}

/// The coordinator: the phase, the shared running flag, whether the
/// work state is known to be durably saved, and whether the worker wait
/// timed out (a degraded, still-confirmed shutdown).
pub struct Coordinator {
    pub phase: Phase,
    pub running: bool,
    pub flushed: bool,
    pub degraded: bool,
}

impl Coordinator {
    /// Well-formedness: the flag is set exactly in `Running`, the state
    /// counts as flushed exactly from the flush phase on, and a
    /// degraded wait can only be recorded once the wait happened.
    pub open spec fn wf(self) -> bool {
        &&& self.running == (self.phase is Running)
        &&& self.flushed == (phase_index(self.phase) >= 3)
        &&& self.degraded ==> phase_index(self.phase) >= 4
    }

    /// A daemon that just started: running, nothing flushed.
    pub fn new() -> (r: Coordinator)
        ensures
            r.wf(),
            r.phase is Running,
            r.running,
    {
        Coordinator { phase: Phase::Running, running: true, flushed: false, degraded: false }
    }

    /// The shared running flag, polled by every worker once per cycle.
    pub fn running(&self) -> (r: bool)
        ensures
            r == self.running,
    {
        self.running
    }

    /// Step one: clear the running flag. This is the single transition
    /// of the flag per process lifetime; no later step sets it again.
    pub fn begin_shutdown(&mut self)
        requires
            old(self).wf(),
            old(self).phase is Running,
        ensures
            final(self).wf(),
            final(self).phase is FlagCleared,
            !final(self).running,
            !final(self).flushed,
            !final(self).degraded,
    {
        self.phase = Phase::FlagCleared;
        self.running = false;
    }

    /// Step two: the driver broadcast the farewell notice and closed
    /// every subscriber connection.
    pub fn farewell_sent(&mut self)
        requires
            old(self).wf(),
            old(self).phase is FlagCleared,
        ensures
            final(self).wf(),
            final(self).phase is FarewellSent,
            !final(self).running,
            !final(self).flushed,
    {
        self.phase = Phase::FarewellSent;
    }

    /// Step three: the driver flushed the persisted work state and the
    /// write was confirmed. Only a confirmed flush advances the
    /// machine; on a failed flush the sequence stops short of the reply
    /// step and the client never sees `ok`.
    pub fn state_flushed(&mut self)
        requires
            old(self).wf(),
            old(self).phase is FarewellSent,
        ensures
            final(self).wf(),
            final(self).phase is StateFlushed,
            !final(self).running,
            final(self).flushed,
    {
        self.phase = Phase::StateFlushed;
        self.flushed = true;
    }

    /// Step four: the bounded wait for the workers ended. A timeout is
    /// recorded as a degraded shutdown but does not block the reply —
    /// the client is answered rather than left hanging.
    pub fn workers_waited(&mut self, all_finished: bool)
        requires
            old(self).wf(),
            old(self).phase is StateFlushed,
        ensures
            final(self).wf(),
            final(self).phase is WorkersWaited,
            !final(self).running,
            final(self).flushed,
            final(self).degraded == !all_finished,
    {
        self.phase = Phase::WorkersWaited;
        self.degraded = !all_finished;
    }

    /// Step five: hand the confirmation to the requesting client. The
    /// machine only reaches this step with the work state flushed.
    pub fn reply_ok(&mut self) -> (reply: &'static str)
        requires
            old(self).wf(),
            old(self).phase is WorkersWaited,
        ensures
            final(self).wf(),
            final(self).phase is Replied,
            !final(self).running,
            final(self).flushed,
            final(self).degraded == old(self).degraded,
            reply@ == "ok"@,
    {
        self.phase = Phase::Replied;
        "ok"
    }
}

/// LAW — no `ok` without a flush. In any well-formed coordinator that
/// has reached the reply step, the persisted work state was flushed
/// beforehand: a `stop` is confirmed only after the state is durably
/// saved.
pub proof fn lemma_ok_only_after_flush(c: Coordinator)
    requires
        c.wf(),
        c.phase is Replied,
    ensures
        c.flushed,
{
}

/// LAW — the running flag falls once and stays down. In any well-formed
/// coordinator that has left `Running`, the shared flag is false, and no
/// step of the machine ever sets it back: workers that saw it cleared
/// will never see it set again.
pub proof fn lemma_flag_monotonic(c: Coordinator)
    requires
        c.wf(),
        !(c.phase is Running),
    ensures
        !c.running,
{
}

} // verus!
