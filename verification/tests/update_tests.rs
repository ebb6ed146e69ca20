use feddit_archivieren::update::{UpdateFault, UpdateMachine, UpdateOutcome, UpdateStep};

const MANIFEST_0_3_1: &str = "[package]\nname = \"feddit_archivieren\"\nversion = \"0.3.1\"\n";
const MANIFEST_0_4_0: &str = "[package]\nname = \"feddit_archivieren\"\nversion = \"0.4.0\"\n";

fn fresh(was_running: bool) -> UpdateMachine {
    UpdateMachine::start(false, false, false, true, was_running, String::from("0.3.1"))
}

#[test]
fn same_version_means_no_build_and_no_relaunch() {
    let mut m = fresh(false);
    assert_eq!(m.step, UpdateStep::CloneSource);
    m.clone_finished(Ok(()));
    assert_eq!(m.step, UpdateStep::ReadVersion);
    m.version_read(Some(MANIFEST_0_3_1));
    assert_eq!(m.step, UpdateStep::Done(UpdateOutcome::AlreadyCurrent));
    assert_eq!(m.builds_started, 0);
    assert_eq!(m.relaunches, 0);
}

#[test]
fn new_version_builds_exactly_once_without_relaunch() {
    let mut m = fresh(false);
    m.clone_finished(Ok(()));
    m.version_read(Some(MANIFEST_0_4_0));
    assert_eq!(m.step, UpdateStep::BuildInstall);
    m.build_finished(Ok(()));
    assert_eq!(m.step, UpdateStep::Done(UpdateOutcome::Installed));
    assert_eq!(m.builds_started, 1);
    assert_eq!(m.relaunches, 0);
}

#[test]
fn new_version_with_running_daemon_relaunches_exactly_once() {
    let mut m = fresh(true);
    m.clone_finished(Ok(()));
    m.version_read(Some(MANIFEST_0_4_0));
    m.build_finished(Ok(()));
    assert_eq!(m.step, UpdateStep::Relaunch);
    m.relaunched();
    assert_eq!(m.step, UpdateStep::Done(UpdateOutcome::Installed));
    assert_eq!(m.builds_started, 1);
    assert_eq!(m.relaunches, 1);
}

#[test]
fn clone_failure_aborts_with_its_diagnostic() {
    let mut m = fresh(false);
    m.clone_finished(Err(String::from("kein Netz")));
    assert_eq!(
        m.step,
        UpdateStep::Done(UpdateOutcome::Failed(UpdateFault::CloneFailed(String::from(
            "kein Netz"
        ))))
    );
    assert_eq!(m.builds_started, 0);
}

#[test]
fn checkout_removal_failure_aborts() {
    let mut m = UpdateMachine::start(true, false, false, true, false, String::from("0.3.1"));
    assert_eq!(m.step, UpdateStep::RemoveCheckout);
    m.checkout_removed(Err(String::from("belegt")));
    assert_eq!(
        m.step,
        UpdateStep::Done(UpdateOutcome::Failed(UpdateFault::RemoveFailed(String::from(
            "belegt"
        ))))
    );
}

#[test]
fn build_failure_keeps_the_old_binary() {
    let mut m = fresh(true);
    m.clone_finished(Ok(()));
    m.version_read(Some(MANIFEST_0_4_0));
    m.build_finished(Err(String::from("make: Fehler")));
    assert_eq!(
        m.step,
        UpdateStep::Done(UpdateOutcome::Failed(UpdateFault::BuildFailed(String::from(
            "make: Fehler"
        ))))
    );
    assert_eq!(m.relaunches, 0);
}

#[test]
fn unreadable_manifest_aborts() {
    let mut m = fresh(false);
    m.clone_finished(Ok(()));
    m.version_read(None);
    assert_eq!(
        m.step,
        UpdateStep::Done(UpdateOutcome::Failed(UpdateFault::VersionUnreadable))
    );

    let mut m = fresh(false);
    m.clone_finished(Ok(()));
    m.version_read(Some("kein gueltiges TOML ["));
    assert_eq!(
        m.step,
        UpdateStep::Done(UpdateOutcome::Failed(UpdateFault::VersionUnreadable))
    );
}

#[test]
fn manifest_without_package_version_is_unreadable() {
    let mut m = fresh(false);
    m.clone_finished(Ok(()));
    m.version_read(Some("[dependencies]\nlibc = \"0.2\"\n"));
    assert_eq!(
        m.step,
        UpdateStep::Done(UpdateOutcome::Failed(UpdateFault::VersionUnreadable))
    );
}

#[test]
fn cache_is_stashed_and_restored_around_the_fetch() {
    let mut m = UpdateMachine::start(true, true, true, false, false, String::from("0.3.1"));
    assert_eq!(m.step, UpdateStep::RemoveStaleCache);
    m.stale_cache_removed();
    assert_eq!(m.step, UpdateStep::StashCache);
    m.cache_stashed(true);
    assert_eq!(m.step, UpdateStep::RemoveCheckout);
    m.checkout_removed(Ok(()));
    assert_eq!(m.step, UpdateStep::CloneSource);
    m.clone_finished(Ok(()));
    assert_eq!(m.step, UpdateStep::SwitchBranch);
    m.branch_switched();
    assert_eq!(m.step, UpdateStep::RestoreCache);
    m.cache_restored();
    assert_eq!(m.step, UpdateStep::ReadVersion);
}

#[test]
fn failed_stash_forfeits_only_the_cache() {
    let mut m = UpdateMachine::start(false, true, false, true, false, String::from("0.3.1"));
    assert_eq!(m.step, UpdateStep::StashCache);
    m.cache_stashed(false);
    assert_eq!(m.step, UpdateStep::CloneSource);
    m.clone_finished(Ok(()));
    assert_eq!(m.step, UpdateStep::ReadVersion);
}
