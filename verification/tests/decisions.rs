use repo_sync::AcquireAction;
use repo_sync::CloneFollowUp;
use repo_sync::CloneOutcome;
use repo_sync::UpdateAction;
use repo_sync::acquire_action;
use repo_sync::choose_message;
use repo_sync::clone_follow_up;
use repo_sync::fetch_refspec;
use repo_sync::progress_update;
use repo_sync::update_action;

#[test]
fn reuses_an_existing_checkout() {
    assert_eq!(acquire_action(true), AcquireAction::UseExisting);
    assert_eq!(acquire_action(false), AcquireAction::CloneFresh);
}

#[test]
fn clone_outcomes_map_to_follow_ups() {
    assert_eq!(clone_follow_up(&CloneOutcome::Cloned), CloneFollowUp::Proceed);
    assert_eq!(
        clone_follow_up(&CloneOutcome::BranchNotFound),
        CloneFollowUp::AbortMissingBranch
    );
    assert_eq!(clone_follow_up(&CloneOutcome::OtherFailure), CloneFollowUp::ReportError);
}

#[test]
fn equal_commit_ids_mean_up_to_date() {
    let a: Vec<u8> = vec![1, 2, 3, 4];
    let b: Vec<u8> = vec![1, 2, 3, 4];
    assert_eq!(update_action(&a, &b), UpdateAction::AlreadyUpToDate);
}

#[test]
fn differing_commit_ids_mean_reset() {
    let a: Vec<u8> = vec![1, 2, 3, 4];
    let b: Vec<u8> = vec![1, 2, 9, 4];
    assert_eq!(update_action(&a, &b), UpdateAction::Reset);
    let shorter: Vec<u8> = vec![1, 2];
    assert_eq!(update_action(&a, &shorter), UpdateAction::Reset);
}

#[test]
fn empty_commit_ids_are_equal() {
    let a: Vec<u8> = vec![];
    let b: Vec<u8> = vec![];
    assert_eq!(update_action(&a, &b), UpdateAction::AlreadyUpToDate);
}

#[test]
fn progress_position_never_passes_the_total() {
    let u = progress_update(3, 10);
    assert_eq!(u.length, 10);
    assert_eq!(u.position, 3);
    let over = progress_update(15, 10);
    assert_eq!(over.length, 10);
    assert_eq!(over.position, 10);
    let zero = progress_update(0, 0);
    assert_eq!(zero.length, 0);
    assert_eq!(zero.position, 0);
}

#[test]
fn refspec_prefixes_the_branch() {
    assert_eq!(fetch_refspec("main"), "refs/head/main");
    assert_eq!(fetch_refspec(""), "refs/head/");
}

#[test]
fn message_is_trimmed() {
    assert_eq!(choose_message(Some("  fix the build\n")), "fix the build");
    assert_eq!(choose_message(Some("already clean")), "already clean");
    assert_eq!(choose_message(Some(" \n\t ")), "");
    assert_eq!(choose_message(Some("\u{3000}wide\u{00A0}")), "wide");
}

#[test]
fn missing_message_gets_the_fixed_note() {
    assert_eq!(choose_message(None), "No commit message");
}
