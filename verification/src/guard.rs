//! The repository-cleanliness guard.
//!
//! Before a run may start, the local working tree is inspected: uncommitted
//! changes, registered submodules and nested repository roots are detected
//! from the raw output of the version-control collaborator, which the
//! application layer captures and hands in as bytes.  The diff-capture
//! protocol (save, diff, restore) is modelled as a session whose order the
//! type enforces: the diff only becomes available once the working tree has
//! been restored.

use vstd::prelude::*;
use crate::text::{bytes_blank, bytes_have_multiple_lines, has_multiple_lines, is_blank};

verus! {

/// What the guard found, computed fresh on each check.  The variants are
/// listed in the order in which the checks run; the first finding wins.
#[derive(Clone, Copy, PartialEq, Eq, Structural, Debug)]
pub enum RepositoryState {
    Clean,
    Dirty,
    ContainsSubmodules,
    ContainsNestedRepositories,
}

/// True iff the working tree is clean: `git status --porcelain` printed
/// nothing (no uncommitted tracked changes and no untracked files).
pub fn is_repo_clean(status_output: &[u8]) -> (r: bool)
    ensures
        r == is_blank(status_output@),
{
    bytes_blank(status_output)
}

/// True iff the repository has registered submodules:
/// `git submodule status --recursive` printed at least one entry.
pub fn does_repo_contain_submodules(submodule_output: &[u8]) -> (r: bool)
    ensures
        r == !is_blank(submodule_output@),
{
    !bytes_blank(submodule_output)
}

/// True iff a nested repository root lies beneath the repository: a search
/// for version-control roots under the repository root listed more than one
/// path (the repository's own root is always listed).
pub fn does_repo_contain_subfolders_with_repos(root_listing: &[u8]) -> (r: bool)
    ensures
        r == has_multiple_lines(root_listing@),
{
    bytes_have_multiple_lines(root_listing)
}

/// The guard's verdict over the three command outputs, first finding first:
/// submodules, then nested repositories, then uncommitted changes.
pub open spec fn spec_repository_state(
    status_output: Seq<u8>,
    submodule_output: Seq<u8>,
    root_listing: Seq<u8>,
) -> RepositoryState {
    if !is_blank(submodule_output) {
        RepositoryState::ContainsSubmodules
    } else if has_multiple_lines(root_listing) {
        RepositoryState::ContainsNestedRepositories
    } else if !is_blank(status_output) {
        RepositoryState::Dirty
    } else {
        RepositoryState::Clean
    }
}

/// Classifies the working tree from the raw outputs of the three inspection
/// commands.
pub fn classify_repository(
    status_output: &[u8],
    submodule_output: &[u8],
    root_listing: &[u8],
) -> (r: RepositoryState)
    ensures
        r == spec_repository_state(status_output@, submodule_output@, root_listing@),
{
    if does_repo_contain_submodules(submodule_output) {
        RepositoryState::ContainsSubmodules
    } else if does_repo_contain_subfolders_with_repos(root_listing) {
        RepositoryState::ContainsNestedRepositories
    } else if !is_repo_clean(status_output) {
        RepositoryState::Dirty
    } else {
        RepositoryState::Clean
    }
}

/// Where a diff-capture session stands.
#[derive(PartialEq, Eq, Structural, Clone, Copy, Debug)]
pub enum DiffPhase {
    /// Nothing has happened yet.
    Idle,
    /// The dirty tree (untracked files included) has been saved away.
    Saved,
    /// The diff between the save point and the committed state is recorded.
    Diffed,
    /// The tree and index are back in their exact pre-snapshot state.
    Restored,
    /// Restoring failed: the repository is in an inconsistent state.  Fatal;
    /// the session yields no artifact.
    RestoreFailed,
}

/// One save/diff/restore session.  The state is private and only moves
/// forward through the transitions below, so a caller that holds a session
/// cannot read the diff before the save point has been taken, nor obtain it
/// at all unless the restore succeeded.
pub struct DiffCapture {
    state: DiffPhase,
    diff: Vec<u8>,
}

impl DiffCapture {
    /// Where this session stands.
    pub closed spec fn phase(&self) -> DiffPhase {
        self.state
    }

    /// The recorded diff bytes.
    pub closed spec fn diff_bytes(&self) -> Seq<u8> {
        self.diff@
    }

    pub fn new() -> (r: DiffCapture)
        ensures
            r.phase() == DiffPhase::Idle,
    {
        DiffCapture { state: DiffPhase::Idle, diff: Vec::new() }
    }

    /// The working tree, untracked files included, has been snapshotted into
    /// the temporary save point.
    pub fn mark_saved(&mut self)
        requires
            old(self).phase() == DiffPhase::Idle,
        ensures
            final(self).phase() == DiffPhase::Saved,
            final(self).diff_bytes() == old(self).diff_bytes(),
    {
        self.state = DiffPhase::Saved;
    }

    /// The diff between the save point and the prior committed state has been
    /// computed; its bytes are recorded.
    pub fn record_diff(&mut self, diff: Vec<u8>)
        requires
            old(self).phase() == DiffPhase::Saved,
        ensures
            final(self).phase() == DiffPhase::Diffed,
            final(self).diff_bytes() == diff@,
    {
        self.state = DiffPhase::Diffed;
        self.diff = diff;
    }

    /// Records how the restore command ended.  Success means the working tree
    /// and index are back in their exact pre-snapshot state, staged/unstaged
    /// distinction preserved; anything else — the command could not run, or
    /// ran and exited unsuccessfully — leaves the repository inconsistent,
    /// which is fatal, not retryable: the session will never yield the diff.
    pub fn restore_finished(&mut self, succeeded: bool)
        requires
            old(self).phase() == DiffPhase::Diffed,
        ensures
            succeeded ==> final(self).phase() == DiffPhase::Restored,
            !succeeded ==> final(self).phase() == DiffPhase::RestoreFailed,
            final(self).diff_bytes() == old(self).diff_bytes(),
    {
        if succeeded {
            self.state = DiffPhase::Restored;
        } else {
            self.state = DiffPhase::RestoreFailed;
        }
    }

    /// Hands out the captured diff.  Only callable once the restore succeeded,
    /// which makes the save/diff/restore sequence atomic from the caller's
    /// point of view.
    pub fn take_diff(self) -> (r: Vec<u8>)
        requires
            self.phase() == DiffPhase::Restored,
        ensures
            r@ == self.diff_bytes(),
    {
        self.diff
    }
}

} // verus!
