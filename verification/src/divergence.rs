//! Whether the current branch and its upstream point at different commits.

use vstd::prelude::*;
use git2::{BranchType, Error, Repository};
use crate::git::{
    branch_reference_name,
    branch_upstream,
    find_branch,
    reference_is_branch,
    reference_shorthand,
    refname_to_id,
    repository_head,
};

verus! {

/// Why the two commit ids of a branch could not be had.
#[derive(Clone, Copy, Debug, PartialEq, Eq, Structural)]
pub enum ResolutionError {
    /// HEAD does not resolve: the repository has no commit yet.
    NoHead,
    /// HEAD names no branch: it is detached, or the short name of what it
    /// resolves to is no valid text.
    NoBranchName,
    /// There is no local branch of that name.
    BranchNotFound,
    /// The branch follows no upstream branch.
    NoUpstream,
    /// One of the two reference names does not resolve to an object id.
    RefResolutionFailed,
}

/// The steps of a resolution, in the order in which they are taken.
#[derive(Clone, Copy, Debug, PartialEq, Eq, Structural)]
pub enum Step {
    /// Reading the reference that HEAD resolves to.
    Head,
    /// Taking the short name of the branch that HEAD stands on.
    BranchName,
    /// Looking up the local branch of that name.
    LocalBranch,
    /// Looking up the upstream that the branch follows.
    Upstream,
    /// Resolving the local reference name to an object id.
    LocalId,
    /// Resolving the upstream reference name to an object id.
    UpstreamId,
}

/// The error that a failure of `step` names.
pub open spec fn failure_at(step: Step) -> ResolutionError {
    match step {
        Step::Head => ResolutionError::NoHead,
        Step::BranchName => ResolutionError::NoBranchName,
        Step::LocalBranch => ResolutionError::BranchNotFound,
        Step::Upstream => ResolutionError::NoUpstream,
        Step::LocalId | Step::UpstreamId => ResolutionError::RefResolutionFailed,
    }
}

/// The error that a failure of `step` names.
pub fn failure(step: Step) -> (error: ResolutionError)
    ensures
        error == failure_at(step),
{
    match step {
        Step::Head => ResolutionError::NoHead,
        Step::BranchName => ResolutionError::NoBranchName,
        Step::LocalBranch => ResolutionError::BranchNotFound,
        Step::Upstream => ResolutionError::NoUpstream,
        Step::LocalId | Step::UpstreamId => ResolutionError::RefResolutionFailed,
    }
}

/// What a step comes to: the value that the repository gave, or the error
/// that a failure of this step names. The repository's own error is dropped.
pub fn found_at<T>(step: Step, found: Result<T, Error>) -> (outcome: Result<T, ResolutionError>)
    ensures
        found matches Ok(value) ==> outcome == Ok::<T, ResolutionError>(value),
        found is Err ==> outcome == Err::<T, ResolutionError>(failure_at(step)),
{
    match found {
        Ok(value) => Ok(value),
        Err(_) => Err(failure(step)),
    }
}

/// What the branch-name step comes to for a reference that is a local
/// branch or not: a reference that is none has no branch name, whatever its
/// short name is.
pub fn branch_name_of(is_branch: bool, shorthand: Result<String, Error>) -> (outcome: Result<
    String,
    ResolutionError,
>)
    ensures
        is_branch && shorthand is Ok ==> outcome == Ok::<String, ResolutionError>(
            shorthand->Ok_0,
        ),
        !is_branch || shorthand is Err ==> outcome == Err::<String, ResolutionError>(
            ResolutionError::NoBranchName,
        ),
{
    if is_branch {
        found_at(Step::BranchName, shorthand)
    } else {
        Err(failure(Step::BranchName))
    }
}

/// The name under which a reference is looked up: its own where that is
/// valid text, else the empty name, which resolves to nothing.
pub fn name_or_empty(name: Result<String, Error>) -> (text: String)
    ensures
        name matches Ok(found) ==> text == found,
        name is Err ==> text@ == Seq::<char>::empty(),
{
    match name {
        Ok(found) => found,
        Err(_) => String::new(),
    }
}

/// The number of bytes of an object id.
pub const OID_LEN: usize = 20;

/// The kind of branch that HEAD can stand on, and that is looked up under
/// the short name of HEAD: a local one.
pub fn kind_of_current_branch() -> (kind: BranchType)
    ensures
        kind is Local,
{
    BranchType::Local
}

/// The current branch and its upstream, each with the id of its commit.
#[derive(Debug)]
pub struct ReferencePair {
    pub local_name: String,
    pub local_id: Vec<u8>,
    pub upstream_name: String,
    pub upstream_id: Vec<u8>,
}

impl ReferencePair {
    /// Both ids are whole object ids.
    pub open spec fn resolved(&self) -> bool {
        self.local_id@.len() == OID_LEN && self.upstream_id@.len() == OID_LEN
    }

    /// The two tips are different commits.
    pub open spec fn differs(&self) -> bool {
        self.local_id@ != self.upstream_id@
    }

    pub fn tips_differ(&self) -> (differ: bool)
        ensures
            differ == self.differs(),
    {
        !same_bytes(&self.local_id, &self.upstream_id)
    }
}

/// What a resolution says of divergence: only a pair of different ids counts.
/// A resolution that failed, for whatever reason, reports none.
pub open spec fn diverged(outcome: Result<ReferencePair, ResolutionError>) -> bool {
    match outcome {
        Ok(pair) => pair.differs(),
        Err(_) => false,
    }
}

pub fn same_bytes(left: &Vec<u8>, right: &Vec<u8>) -> (same: bool)
    ensures
        same == (left@ == right@),
{
    if left.len() != right.len() {
        return false;
    }
    let mut i: usize = 0;
    while i < left.len()
        invariant
            left.len() == right.len(),
            i <= left.len(),
            forall|j: int| 0 <= j < i ==> left@[j] == right@[j],
        decreases left.len() - i,
    {
        if left[i] != right[i] {
            return false;
        }
        i = i + 1;
    }
    assert(left@ =~= right@);
    true
}

/// Collapses a resolution to the one signal that the classifier reads.
pub fn diverges(outcome: &Result<ReferencePair, ResolutionError>) -> (unpushed: bool)
    ensures
        unpushed == diverged(*outcome),
{
    match outcome {
        Ok(pair) => pair.tips_differ(),
        Err(_) => false,
    }
}

/// A resolution that failed never reports divergence; in particular a branch
/// without an upstream never counts as having unpushed commits.
pub proof fn lemma_failure_reports_no_divergence(
    outcome: Result<ReferencePair, ResolutionError>,
)
    requires
        outcome is Err,
    ensures
        !diverged(outcome),
{
}

/// Divergence has no direction: ahead, behind and forked all count, and
/// swapping the two sides changes nothing.
pub proof fn lemma_divergence_symmetric(pair: ReferencePair, swapped: ReferencePair)
    requires
        swapped.local_id@ == pair.upstream_id@,
        swapped.upstream_id@ == pair.local_id@,
    ensures
        diverged(Ok(swapped)) == diverged(Ok(pair)),
{
}

/// Resolves the current branch and its upstream to their commit ids.
///
/// The steps are taken in the order of `Step`, and the first that fails
/// ends the resolution with the error that `failure_at` gives it: what each
/// step comes to is decided by `found_at`, `branch_name_of` and
/// `name_or_empty` from what the repository answered. A pair that comes back
/// holds two whole object ids. The answers are read from disk, so nothing
/// more is promised here of which outcome comes back.
pub fn resolve(repo: &Repository) -> (outcome: Result<ReferencePair, ResolutionError>)
    ensures
        outcome matches Ok(pair) ==> pair.resolved(),
{
    let head = match found_at(Step::Head, repository_head(repo)) {
        Ok(head) => head,
        Err(error) => {
            return Err(error);
        },
    };
    let is_branch = reference_is_branch(&head);
    let branch_name = match branch_name_of(is_branch, reference_shorthand(&head)) {
        Ok(name) => name,
        Err(error) => {
            return Err(error);
        },
    };
    let found = find_branch(repo, branch_name.as_str(), kind_of_current_branch());
    let local = match found_at(Step::LocalBranch, found) {
        Ok(branch) => branch,
        Err(error) => {
            return Err(error);
        },
    };
    let upstream = match found_at(Step::Upstream, branch_upstream(&local)) {
        Ok(branch) => branch,
        Err(error) => {
            return Err(error);
        },
    };
    let local_name = name_or_empty(branch_reference_name(&local));
    let local_id = match found_at(Step::LocalId, refname_to_id(repo, local_name.as_str())) {
        Ok(id) => id,
        Err(error) => {
            return Err(error);
        },
    };
    let upstream_name = name_or_empty(branch_reference_name(&upstream));
    let upstream_id = match found_at(
        Step::UpstreamId,
        refname_to_id(repo, upstream_name.as_str()),
    ) {
        Ok(id) => id,
        Err(error) => {
            return Err(error);
        },
    };
    Ok(ReferencePair { local_name, local_id, upstream_name, upstream_id })
}

/// Whether the current branch and its upstream stand at different commits,
/// as far as this can be told: any failure to resolve the two ids counts as
/// "no". Which of the two is ahead is not told apart.
///
/// The answer is what `diverges` makes of the resolution: a "yes" rests on
/// a pair of two whole object ids that differ. The resolution is read from
/// disk, so nothing is promised here of which answer comes back.
pub fn has_commits_not_pushed(repo: &Repository) -> (unpushed: bool)
    ensures
        unpushed ==> exists|pair: ReferencePair| #[trigger] pair.resolved() && pair.differs(),
{
    let outcome = resolve(repo);
    let unpushed = diverges(&outcome);
    proof {
        if unpushed {
            let pair = outcome->Ok_0;
            assert(pair.resolved() && pair.differs());
        }
    }
    unpushed
}

} // verus!
