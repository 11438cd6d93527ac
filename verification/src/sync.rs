//! Decisions of the synchronization procedure: whether to clone, how to
//! react to a clone failure, whether the local branch must be reset, and
//! what a progress report shows.

use vstd::prelude::*;

verus! {

/// How a local checkout is acquired: reuse the repository already on disk,
/// or clone the remote afresh.
#[derive(Clone, Copy, Debug, PartialEq, Eq, Structural)]
pub enum AcquireAction {
    UseExisting,
    CloneFresh,
}

/// What happened when the remote was cloned.
#[derive(Clone, Copy, Debug, PartialEq, Eq, Structural)]
pub enum CloneOutcome {
    Cloned,
    BranchNotFound,
    OtherFailure,
}

/// What the program does after a clone attempt.
#[derive(Clone, Copy, Debug, PartialEq, Eq, Structural)]
pub enum CloneFollowUp {
    Proceed,
    AbortMissingBranch,
    ReportError,
}

/// Whether the local branch needs a hard reset to the remote head.
#[derive(Clone, Copy, Debug, PartialEq, Eq, Structural)]
pub enum UpdateAction {
    AlreadyUpToDate,
    Reset,
}

/// One report to a progress display: the total it shows and the position,
/// which never runs past the total.
#[derive(Clone, Copy, Debug, PartialEq, Eq, Structural)]
pub struct ProgressUpdate {
    pub length: u64,
    pub position: u64,
}

/// An existing repository at the target path is reused; only when opening it
/// failed is the remote cloned.
pub fn acquire_action(open_succeeded: bool) -> (r: AcquireAction)
    ensures
        r == AcquireAction::UseExisting <==> open_succeeded,
        r == AcquireAction::CloneFresh <==> !open_succeeded,
{
    if open_succeeded {
        AcquireAction::UseExisting
    } else {
        AcquireAction::CloneFresh
    }
}

/// After a clone attempt: go on with the fresh checkout, abort when the
/// requested branch does not exist on the remote, and report any other
/// failure to the caller.
pub fn clone_follow_up(outcome: &CloneOutcome) -> (r: CloneFollowUp)
    ensures
        r == CloneFollowUp::Proceed <==> outcome == CloneOutcome::Cloned,
        r == CloneFollowUp::AbortMissingBranch <==> outcome == CloneOutcome::BranchNotFound,
        r == CloneFollowUp::ReportError <==> outcome == CloneOutcome::OtherFailure,
{
    match outcome {
        CloneOutcome::Cloned => CloneFollowUp::Proceed,
        CloneOutcome::BranchNotFound => CloneFollowUp::AbortMissingBranch,
        CloneOutcome::OtherFailure => CloneFollowUp::ReportError,
    }
}

/// The local branch is reset exactly when its commit id differs from the
/// remote head's commit id.
pub fn update_action(local_id: &Vec<u8>, origin_id: &Vec<u8>) -> (r: UpdateAction)
    ensures
        r == UpdateAction::Reset <==> local_id@ != origin_id@,
        r == UpdateAction::AlreadyUpToDate <==> local_id@ == origin_id@,
{
    if local_id.len() != origin_id.len() {
        assert(local_id@ != origin_id@);
        return UpdateAction::Reset;
    }
    let n = local_id.len();
    let mut i: usize = 0;
    while i < n
        invariant
            n == local_id@.len() == origin_id@.len(),
            i <= n,
            forall|j: int| 0 <= j < i ==> local_id@[j] == origin_id@[j],
        decreases n - i,
    {
        if local_id[i] != origin_id[i] {
            assert(local_id@ != origin_id@);
            return UpdateAction::Reset;
        }
        i = i + 1;
    }
    assert(local_id@ =~= origin_id@);
    UpdateAction::AlreadyUpToDate
}

/// A progress display is told the full total, and a position clamped to it:
/// the bar never reports more work done than there is.
pub fn progress_update(done: usize, total: usize) -> (r: ProgressUpdate)
    ensures
        r.length == total as u64,
        r.position == if done <= total {
            done as u64
        } else {
            total as u64
        },
{
    let position: usize = if done <= total {
        done
    } else {
        total
    };
    ProgressUpdate { length: total as u64, position: position as u64 }
}

/// Relies on String::push_str: appends the slice's characters to the string.
#[verifier::external_body]
fn push_str(s: &mut String, t: &str)
    ensures
        final(s)@ == old(s)@ + t@,
{
    s.push_str(t)
}

/// The refspec the tool fetches for a branch: the branch name under the
/// `refs/head/` prefix.
pub fn fetch_refspec(branch: &str) -> (r: String)
    ensures
        r@ == "refs/head/"@ + branch@,
{
    let mut s = "refs/head/".to_owned();
    push_str(&mut s, branch);
    s
}

} // verus!
