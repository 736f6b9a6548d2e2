//! The calls into `git2`, each behind a small wrapper whose contract is
//! taken on trust.
//!
//! What a repository holds is read from disk, so nothing is claimed of the
//! values that these calls return: the callers are verified for whatever
//! comes back. The one exception is a status list, which is a snapshot in
//! memory: its length and its entries are those of one fixed sequence.

use vstd::prelude::*;
use git2::{Branch, BranchType, Error, Reference, Repository, StatusShow, Statuses};

verus! {

/// `git2::Repository`, an open repository; opaque here.
#[verifier::external_type_specification]
#[verifier::external_body]
pub struct ExRepository(git2::Repository);

/// `git2::Statuses`, the list that a status query returns; what it holds is
/// named by `status_bits`, and the options that it was made with by
/// `made_with`.
#[verifier::external_type_specification]
#[verifier::external_body]
pub struct ExStatuses<'repo>(git2::Statuses<'repo>);

/// `git2::Reference`, a reference of a repository; opaque here.
#[verifier::external_type_specification]
#[verifier::external_body]
pub struct ExReference<'repo>(git2::Reference<'repo>);

/// `git2::Branch`, a branch of a repository; opaque here.
#[verifier::external_type_specification]
#[verifier::external_body]
pub struct ExBranch<'repo>(git2::Branch<'repo>);

/// `git2::Error`, the error of every fallible call; opaque here.
#[verifier::external_type_specification]
#[verifier::external_body]
pub struct ExError(git2::Error);

/// `git2::BranchType`: `Local` or `Remote`.
#[verifier::external_type_specification]
pub struct ExBranchType(git2::BranchType);

/// `git2::StatusShow`: `Index`, `Workdir` or `IndexAndWorkdir`.
#[verifier::external_type_specification]
pub struct ExStatusShow(git2::StatusShow);

/// The flag bits of the entries of a status list, in the list's order: for
/// each entry what `git2::StatusEntry::status` reports, as a number.
pub uninterp spec fn status_bits(statuses: &Statuses) -> Seq<u32>;

/// The options that a status list was made with: what it shows, whether it
/// includes untracked files, and whether it searches untracked directories.
/// The list keeps a copy of the options of its query.
pub uninterp spec fn made_with(statuses: &Statuses) -> (StatusShow, bool, bool);

/// `git2::Repository::open`: opens the repository rooted at `path`.
/// Nothing is claimed of the outcome.
#[verifier::external_body]
pub(crate) fn open_repository(path: &std::path::PathBuf) -> (res: Result<Repository, Error>) {
    Repository::open(path)
}

/// `git2::Repository::statuses`, with options made by
/// `git2::StatusOptions::new` and set by its `show`, `include_untracked` and
/// `recurse_untracked_dirs`. A list that comes back was made with the three
/// options given; nothing is claimed of whether one comes back, nor of what
/// it holds.
#[verifier::external_body]
pub(crate) fn query_statuses<'r>(
    repo: &'r Repository,
    show: StatusShow,
    include_untracked: bool,
    recurse_untracked_dirs: bool,
) -> (res: Result<Statuses<'r>, Error>)
    ensures
        res matches Ok(list) ==> made_with(&list) == (
            show,
            include_untracked,
            recurse_untracked_dirs,
        ),
{
    let mut options = git2::StatusOptions::new();
    options.show(show);
    options.include_untracked(include_untracked);
    options.recurse_untracked_dirs(recurse_untracked_dirs);
    repo.statuses(Some(&mut options))
}

/// `git2::Statuses::len`: the number of entries of the list.
#[verifier::external_body]
pub(crate) fn statuses_len(statuses: &Statuses) -> (n: usize)
    ensures
        n == status_bits(statuses).len(),
{
    statuses.len()
}

/// `git2::Statuses::get` and, on the entry, `git2::StatusEntry::status` with
/// `bits`: the flag bits of the entry at `index`, which exists exactly where
/// `index` is below the list's length.
#[verifier::external_body]
pub(crate) fn statuses_bits_at(statuses: &Statuses, index: usize) -> (res: Option<u32>)
    ensures
        index < status_bits(statuses).len() ==> res == Some(status_bits(statuses)[index as int]),
        index >= status_bits(statuses).len() ==> res.is_none(),
{
    match statuses.get(index) {
        Some(entry) => Some(entry.status().bits()),
        None => None,
    }
}

/// `git2::Repository::head`: the reference that HEAD resolves to.
/// Nothing is claimed of the outcome.
#[verifier::external_body]
pub(crate) fn repository_head<'r>(repo: &'r Repository) -> (res: Result<Reference<'r>, Error>) {
    repo.head()
}

/// `git2::Reference::is_branch`: whether a reference is a local branch.
/// Nothing is claimed of the answer.
#[verifier::external_body]
pub(crate) fn reference_is_branch(reference: &Reference) -> (is_branch: bool) {
    reference.is_branch()
}

/// `git2::Reference::shorthand`: the short name of a reference.
/// Nothing is claimed of the outcome.
#[verifier::external_body]
pub(crate) fn reference_shorthand(reference: &Reference) -> (res: Result<String, Error>) {
    reference.shorthand().map(String::from)
}

/// `git2::Repository::find_branch`: the branch of that name and kind.
/// Nothing is claimed of the outcome.
#[verifier::external_body]
pub(crate) fn find_branch<'r>(repo: &'r Repository, name: &str, kind: BranchType) -> (res: Result<
    Branch<'r>,
    Error,
>) {
    repo.find_branch(name, kind)
}

/// `git2::Branch::upstream`: the remote-tracking branch that a local branch
/// is configured to follow. Nothing is claimed of the outcome.
#[verifier::external_body]
pub(crate) fn branch_upstream<'r>(branch: &Branch<'r>) -> (res: Result<Branch<'r>, Error>) {
    branch.upstream()
}

/// `git2::Branch::get` and `git2::Reference::name`: the full name of the
/// reference that a branch is. Nothing is claimed of the outcome.
#[verifier::external_body]
pub(crate) fn branch_reference_name(branch: &Branch) -> (res: Result<String, Error>) {
    branch.get().name().map(String::from)
}

/// `git2::Repository::refname_to_id` and `git2::Oid::as_bytes`: the bytes of
/// the object id that a reference name resolves to. An id has 20 bytes, as
/// `git2` is built here, without its support for SHA-256; nothing else is
/// claimed of the outcome.
#[verifier::external_body]
pub(crate) fn refname_to_id(repo: &Repository, name: &str) -> (res: Result<Vec<u8>, Error>)
    ensures
        res matches Ok(id) ==> id@.len() == 20,
{
    match repo.refname_to_id(name) {
        Ok(id) => Ok(id.as_bytes().to_vec()),
        Err(error) => Err(error),
    }
}

} // verus!
