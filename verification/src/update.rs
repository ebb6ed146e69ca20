//! The self-update orchestrator.
//!
//! An update fetches a fresh copy of the source, preserves the
//! incremental build cache across the re-fetch, compares the fetched
//! version against the running one, and rebuilds and reinstalls only
//! when they differ — relaunching the daemon afterwards when one was
//! running. The driver performs the outside work (directory moves, the
//! clone, the branch switch, the build) and reports each outcome; this
//! machine decides every step and proves the update discipline: no
//! build when the versions match, exactly one build and at most one
//! relaunch otherwise, and a fetch or build failure ends the update
//! with the installed binary untouched.

use vstd::prelude::*;

use crate::text::str_eq;

verus! {

/// Why an update attempt ended without installing anything. In every
/// case the previously installed binary is untouched and keeps running.
#[derive(Clone, Debug, PartialEq, Eq)]
pub enum UpdateFault {
    /// The stale checkout directory could not be discarded.
    RemoveFailed(String),
    /// Fetching the fresh source copy failed.
    CloneFailed(String),
    /// The fetched source declares no readable version.
    VersionUnreadable,
    /// The build-and-install step failed; the payload is its captured
    /// output.
    BuildFailed(String),
}

/// How an update attempt ended.
#[derive(Clone, Debug, PartialEq, Eq)]
pub enum UpdateOutcome {
    /// The fetched version equals the running one: nothing was built,
    /// nothing reinstalled.
    AlreadyCurrent,
    /// The new version was built and installed.
    Installed,
    /// The attempt was aborted; the installed binary is unchanged.
    Failed(UpdateFault),
}

/// What the driver must do next, or how the update ended.
#[derive(Clone, Debug, PartialEq, Eq)]
pub enum UpdateStep {
    /// Discard the leftover cache-stash directory of an earlier update.
    RemoveStaleCache,
    /// Move the build cache out of the checkout, aside, so the re-fetch
    /// does not discard it.
    StashCache,
    /// Discard the previous checkout directory in full.
    RemoveCheckout,
    /// Fetch a fresh copy of the source into the checkout path.
    CloneSource,
    /// Switch the fresh checkout to the configured branch.
    SwitchBranch,
    /// Move the stashed build cache back into the fresh checkout.
    RestoreCache,
    /// Read the version the fetched source declares.
    ReadVersion,
    /// Build the fetched source and install it over the old binary.
    BuildInstall,
    /// Start a fresh daemon instance under the new binary.
    Relaunch,
    /// The update ended.
    Done(UpdateOutcome),
}

/// What the `package.version` entry of a TOML manifest holds. The
/// result depends on the manifest text alone.
pub uninterp spec fn spec_manifest_version(manifest: Seq<char>) -> Option<Seq<char>>;

/// Relies on toml::Table's FromStr and get, and toml::Value's get and
/// as_str: the `package.version` string of a TOML manifest, absent when
/// the text does not parse or carries no such string.
#[verifier::external_body]
fn manifest_version(manifest: &str) -> (r: Option<String>)
    ensures
        r.deep_view() == spec_manifest_version(manifest@),
{
    let table: toml::Table = match manifest.parse() {
        Ok(t) => t,
        Err(_) => return None,
    };
    match table.get("package").and_then(|p| p.get("version")).and_then(|v| v.as_str()) {
        Some(s) => Some(s.to_owned()),
        None => None,
    }
}

/// The first step of an update, from what exists on disk when it
/// begins.
pub open spec fn spec_initial_step(
    cache_exists: bool,
    aside_exists: bool,
    checkout_exists: bool,
) -> UpdateStep {
    if cache_exists && aside_exists {
        UpdateStep::RemoveStaleCache
    } else if cache_exists {
        UpdateStep::StashCache
    } else if checkout_exists {
        UpdateStep::RemoveCheckout
    } else {
        UpdateStep::CloneSource
    }
}

/// The update orchestrator's state. The driver matches on `step`,
/// performs the outside action it names, and reports the outcome
/// through the method for that step.
pub struct UpdateMachine {
    /// The pending action, or the final outcome.
    pub step: UpdateStep,
    /// Whether a previous checkout existed when the update began.
    pub checkout_exists: bool,
    /// Whether the configured branch is the default one, in which case
    /// no switch is attempted.
    pub branch_is_default: bool,
    /// Whether a daemon instance was running when the update began.
    pub was_running: bool,
    /// Whether the build cache was successfully moved aside.
    pub cache_stashed: bool,
    /// The version of the running program.
    pub current_version: String,
    /// How many build-and-install actions were performed.
    pub builds_started: u8,
    /// How many relaunches were performed.
    pub relaunches: u8,
}

impl UpdateMachine {
    /// The step after the fetch and branch handling: restore the cache
    /// if one was stashed, else read the fetched version.
    pub open spec fn spec_after_fetch(self) -> UpdateStep {
        if self.cache_stashed {
            UpdateStep::RestoreCache
        } else {
            UpdateStep::ReadVersion
        }
    }

    /// Well-formedness: the build and relaunch counts fit the step the
    /// machine is at. Before the build step nothing was built; an
    /// installed outcome was built exactly once and relaunched exactly
    /// when a daemon had been running; an already-current outcome was
    /// never built.
    pub open spec fn wf(self) -> bool {
        match self.step {
            UpdateStep::RemoveStaleCache => self.builds_started == 0 && self.relaunches == 0,
            UpdateStep::StashCache => self.builds_started == 0 && self.relaunches == 0,
            UpdateStep::RemoveCheckout => self.builds_started == 0 && self.relaunches == 0,
            UpdateStep::CloneSource => self.builds_started == 0 && self.relaunches == 0,
            UpdateStep::SwitchBranch => self.builds_started == 0 && self.relaunches == 0,
            UpdateStep::RestoreCache => self.builds_started == 0 && self.relaunches == 0,
            UpdateStep::ReadVersion => self.builds_started == 0 && self.relaunches == 0,
            UpdateStep::BuildInstall => self.builds_started == 0 && self.relaunches == 0,
            UpdateStep::Relaunch => self.builds_started == 1 && self.relaunches == 0
                && self.was_running,
            UpdateStep::Done(UpdateOutcome::AlreadyCurrent) => self.builds_started == 0
                && self.relaunches == 0,
            UpdateStep::Done(UpdateOutcome::Installed) => self.builds_started == 1
                && self.relaunches == (if self.was_running {
                1u8
            } else {
                0u8
            }),
            UpdateStep::Done(UpdateOutcome::Failed(UpdateFault::BuildFailed(_))) => self
                .builds_started == 1 && self.relaunches == 0,
            UpdateStep::Done(UpdateOutcome::Failed(_)) => self.builds_started == 0
                && self.relaunches == 0,
        }
    }

    /// Begins an update from what exists on disk and how the program
    /// was configured and invoked.
    pub fn start(
        checkout_exists: bool,
        cache_exists: bool,
        aside_exists: bool,
        branch_is_default: bool,
        was_running: bool,
        current_version: String,
    ) -> (m: UpdateMachine)
        ensures
            m.wf(),
            m.step == spec_initial_step(cache_exists, aside_exists, checkout_exists),
            m.checkout_exists == checkout_exists,
            m.branch_is_default == branch_is_default,
            m.was_running == was_running,
            !m.cache_stashed,
            m.current_version == current_version,
            m.builds_started == 0,
            m.relaunches == 0,
    {
        let step = if cache_exists && aside_exists {
            UpdateStep::RemoveStaleCache
        } else if cache_exists {
            UpdateStep::StashCache
        } else if checkout_exists {
            UpdateStep::RemoveCheckout
        } else {
            UpdateStep::CloneSource
        };
        UpdateMachine {
            step,
            checkout_exists,
            branch_is_default,
            was_running,
            cache_stashed: false,
            current_version,
            builds_started: 0,
            relaunches: 0,
        }
    }

    /// The stale stash directory was dealt with. Even a failed removal
    /// only costs the cache, never the update: the next step is the
    /// stash attempt either way.
    pub fn stale_cache_removed(&mut self)
        requires
            old(self).wf(),
            old(self).step is RemoveStaleCache,
        ensures
            final(self).wf(),
            final(self).step is StashCache,
            *final(self) == (UpdateMachine { step: UpdateStep::StashCache, ..*old(self) }),
    {
        self.step = UpdateStep::StashCache;
    }

    /// The cache stash attempt ended. On failure the update proceeds
    /// without the cache — slower, still correct.
    pub fn cache_stashed(&mut self, ok: bool)
        requires
            old(self).wf(),
            old(self).step is StashCache,
        ensures
            final(self).wf(),
            final(self).cache_stashed == ok,
            final(self).step == (if old(self).checkout_exists {
                UpdateStep::RemoveCheckout
            } else {
                UpdateStep::CloneSource
            }),
            *final(self) == (UpdateMachine {
                step: final(self).step,
                cache_stashed: ok,
                ..*old(self)
            }),
    {
        self.cache_stashed = ok;
        self.step = if self.checkout_exists {
            UpdateStep::RemoveCheckout
        } else {
            UpdateStep::CloneSource
        };
    }

    /// The old checkout removal ended. Failure aborts the update — a
    /// fresh fetch needs the path free — and the installed binary stays
    /// untouched.
    pub fn checkout_removed(&mut self, outcome: Result<(), String>)
        requires
            old(self).wf(),
            old(self).step is RemoveCheckout,
        ensures
            final(self).wf(),
            final(self).step == (match outcome {
                Result::Ok(()) => UpdateStep::CloneSource,
                Result::Err(m) => UpdateStep::Done(
                    UpdateOutcome::Failed(UpdateFault::RemoveFailed(m)),
                ),
            }),
            *final(self) == (UpdateMachine { step: final(self).step, ..*old(self) }),
    {
        self.step = match outcome {
            Result::Ok(()) => UpdateStep::CloneSource,
            Result::Err(m) => UpdateStep::Done(UpdateOutcome::Failed(UpdateFault::RemoveFailed(m))),
        };
    }

    /// The clone ended. Failure aborts the update with the clone's
    /// diagnostic; success continues with the branch switch when a
    /// non-default branch is configured.
    pub fn clone_finished(&mut self, outcome: Result<(), String>)
        requires
            old(self).wf(),
            old(self).step is CloneSource,
        ensures
            final(self).wf(),
            final(self).step == (match outcome {
                Result::Ok(()) => if old(self).branch_is_default {
                    old(self).spec_after_fetch()
                } else {
                    UpdateStep::SwitchBranch
                },
                Result::Err(m) => UpdateStep::Done(
                    UpdateOutcome::Failed(UpdateFault::CloneFailed(m)),
                ),
            }),
            *final(self) == (UpdateMachine { step: final(self).step, ..*old(self) }),
    {
        self.step = match outcome {
            Result::Ok(()) => if self.branch_is_default {
                if self.cache_stashed {
                    UpdateStep::RestoreCache
                } else {
                    UpdateStep::ReadVersion
                }
            } else {
                UpdateStep::SwitchBranch
            },
            Result::Err(m) => UpdateStep::Done(UpdateOutcome::Failed(UpdateFault::CloneFailed(m))),
        };
    }

    /// The branch switch ended. Failure is not fatal: the update
    /// continues on the default branch.
    pub fn branch_switched(&mut self)
        requires
            old(self).wf(),
            old(self).step is SwitchBranch,
        ensures
            final(self).wf(),
            final(self).step == old(self).spec_after_fetch(),
            *final(self) == (UpdateMachine { step: final(self).step, ..*old(self) }),
    {
        self.step = if self.cache_stashed {
            UpdateStep::RestoreCache
        } else {
            UpdateStep::ReadVersion
        };
    }

    /// The cache restore ended. Failure merely forfeits the
    /// incremental-build speed-up.
    pub fn cache_restored(&mut self)
        requires
            old(self).wf(),
            old(self).step is RestoreCache,
        ensures
            final(self).wf(),
            final(self).step is ReadVersion,
            *final(self) == (UpdateMachine { step: UpdateStep::ReadVersion, ..*old(self) }),
    {
        self.step = UpdateStep::ReadVersion;
    }

    /// The fetched source's manifest was read (or could not be). When
    /// its declared version equals the running one the update ends as
    /// already current, with no build and no reinstall; when they
    /// differ, the build step is next.
    pub fn version_read(&mut self, manifest: Option<&str>)
        requires
            old(self).wf(),
            old(self).step is ReadVersion,
        ensures
            final(self).wf(),
            final(self).step == (match manifest {
                Option::None => UpdateStep::Done(
                    UpdateOutcome::Failed(UpdateFault::VersionUnreadable),
                ),
                Option::Some(text) => match spec_manifest_version(text@) {
                    Option::None => UpdateStep::Done(
                        UpdateOutcome::Failed(UpdateFault::VersionUnreadable),
                    ),
                    Option::Some(v) => if v == old(self).current_version@ {
                        UpdateStep::Done(UpdateOutcome::AlreadyCurrent)
                    } else {
                        UpdateStep::BuildInstall
                    },
                },
            }),
            *final(self) == (UpdateMachine { step: final(self).step, ..*old(self) }),
    {
        self.step = match manifest {
            Option::None => UpdateStep::Done(UpdateOutcome::Failed(UpdateFault::VersionUnreadable)),
            Option::Some(text) => match manifest_version(text) {
                Option::None => UpdateStep::Done(
                    UpdateOutcome::Failed(UpdateFault::VersionUnreadable),
                ),
                Option::Some(v) => if str_eq(v.as_str(), self.current_version.as_str()) {
                    UpdateStep::Done(UpdateOutcome::AlreadyCurrent)
                } else {
                    UpdateStep::BuildInstall
                },
            },
        };
    }

    /// The build-and-install step ended; it ran exactly once in this
    /// update. Failure aborts with the build's captured output and the
    /// previously installed binary keeps running; success continues
    /// with a relaunch exactly when a daemon had been running.
    pub fn build_finished(&mut self, outcome: Result<(), String>)
        requires
            old(self).wf(),
            old(self).step is BuildInstall,
        ensures
            final(self).wf(),
            final(self).builds_started == 1,
            final(self).step == (match outcome {
                Result::Ok(()) => if old(self).was_running {
                    UpdateStep::Relaunch
                } else {
                    UpdateStep::Done(UpdateOutcome::Installed)
                },
                Result::Err(m) => UpdateStep::Done(
                    UpdateOutcome::Failed(UpdateFault::BuildFailed(m)),
                ),
            }),
            *final(self) == (UpdateMachine {
                step: final(self).step,
                builds_started: 1,
                ..*old(self)
            }),
    {
        self.builds_started = 1;
        self.step = match outcome {
            Result::Ok(()) => if self.was_running {
                UpdateStep::Relaunch
            } else {
                UpdateStep::Done(UpdateOutcome::Installed)
            },
            Result::Err(m) => UpdateStep::Done(UpdateOutcome::Failed(UpdateFault::BuildFailed(m))),
        };
    }

    /// The fresh daemon instance was launched; that happened exactly
    /// once, and only because one was running when the update began.
    pub fn relaunched(&mut self)
        requires
            old(self).wf(),
            old(self).step is Relaunch,
        ensures
            final(self).wf(),
            final(self).step == UpdateStep::Done(UpdateOutcome::Installed),
            final(self).relaunches == 1,
            *final(self) == (UpdateMachine {
                step: UpdateStep::Done(UpdateOutcome::Installed),
                relaunches: 1,
                ..*old(self)
            }),
    {
        self.relaunches = 1;
        self.step = UpdateStep::Done(UpdateOutcome::Installed);
    }
}

/// LAW — update discipline. However an update run went: when it ends
/// "already current" it performed no build, no install and no relaunch;
/// when it ends "installed" it performed exactly one build-and-install,
/// and exactly one relaunch if and only if a daemon was running when
/// the update began.
pub proof fn lemma_update_discipline(m: UpdateMachine)
    requires
        m.wf(),
    ensures
        m.step == UpdateStep::Done(UpdateOutcome::AlreadyCurrent) ==> m.builds_started == 0
            && m.relaunches == 0,
        m.step == UpdateStep::Done(UpdateOutcome::Installed) ==> m.builds_started == 1,
        m.step == UpdateStep::Done(UpdateOutcome::Installed) && m.was_running ==> m.relaunches
            == 1,
        m.step == UpdateStep::Done(UpdateOutcome::Installed) && !m.was_running ==> m.relaunches
            == 0,
{
}

} // verus!
