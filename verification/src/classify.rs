//! The status classifier on an open repository.

use vstd::prelude::*;
use git2::{Error, Repository, StatusShow, Statuses};
use crate::divergence::has_commits_not_pushed;
use crate::flags::StatusFlags;
use crate::git::{made_with, query_statuses, status_bits, statuses_bits_at, statuses_len};
use crate::verdict::{classify_entries, consults_divergence, verdict, GitStatus, ScanState};

verus! {

/// The status of a repository could not be queried.
#[derive(Debug, PartialEq)]
pub enum ClassifyError {
    /// The status query failed, with the error that the repository gave.
    StatusQueryFailed(Error),
}

/// The entries of a status list as the classifier reads them.
pub open spec fn entries_of(statuses: &Statuses) -> Seq<StatusFlags> {
    Seq::new(status_bits(statuses).len(), |i: int| StatusFlags { bits: status_bits(statuses)[i] })
}

/// The scan asks for divergence at all: there is a first entry and it is
/// neither staged nor modified.
pub open spec fn divergence_in_question(entries: Seq<StatusFlags>) -> bool {
    entries.len() > 0 && entries[0].undecided()
}

/// The options of the one status query that a classification makes: index
/// and working tree, untracked files included, untracked directories
/// searched.
pub open spec fn full_query() -> (StatusShow, bool, bool) {
    (StatusShow::IndexAndWorkdir, true, true)
}

/// `v` is a verdict of a repository of which `list` was taken: the list was
/// made with the options of `full_query`, and `v` is the verdict of its
/// entries for one of the two answers that the divergence check can give.
pub open spec fn answers(list: &Statuses, v: GitStatus) -> bool {
    &&& made_with(list) == full_query()
    &&& v == verdict(entries_of(list), false) || v == verdict(entries_of(list), true)
}

/// Where the scan never asks for divergence, the answer does not matter;
/// where it asks, a "yes" gives `UnpushedCommits`.
pub proof fn lemma_verdict_by_divergence(entries: Seq<StatusFlags>)
    ensures
        !divergence_in_question(entries) ==> verdict(entries, true) == verdict(entries, false),
        divergence_in_question(entries) ==> verdict(entries, true) == GitStatus::UnpushedCommits,
{
}

/// Two status lists that hold the same entries get the same verdict for the
/// same answer of the divergence check: classifying an unchanged repository
/// again gives the same verdict, as nothing else is read.
pub proof fn lemma_repeatable_on_equal_state(
    first: &Statuses,
    second: &Statuses,
    diverged: bool,
)
    requires
        entries_of(first) == entries_of(second),
    ensures
        verdict(entries_of(first), diverged) == verdict(entries_of(second), diverged),
{
}

/// The entries of a status list, in the list's order.
pub fn entries_in(statuses: &Statuses) -> (entries: Vec<StatusFlags>)
    ensures
        entries@ == entries_of(statuses),
{
    let n = statuses_len(statuses);
    let mut entries: Vec<StatusFlags> = Vec::new();
    let mut i: usize = 0;
    while i < n
        invariant
            n == entries_of(statuses).len(),
            i <= n,
            entries@ == entries_of(statuses).take(i as int),
        decreases n - i,
    {
        match statuses_bits_at(statuses, i) {
            Some(bits) => {
                entries.push(StatusFlags::from_bits(bits));
                assert(entries@ =~= entries_of(statuses).take(i + 1));
                i = i + 1;
            },
            None => {
                i = n;
            },
        }
    }
    assert(entries_of(statuses).take(n as int) =~= entries_of(statuses));
    entries
}

/// Whether classifying this list asks whether the branch has diverged.
pub fn divergence_asked(statuses: &Statuses) -> (asked: bool)
    ensures
        asked == divergence_in_question(entries_of(statuses)),
{
    match statuses_bits_at(statuses, 0) {
        Some(bits) => {
            let asked = ScanState::start().needs_divergence(StatusFlags::from_bits(bits));
            assert(asked == consults_divergence(ScanState::Scanning, entries_of(statuses)[0]));
            asked
        },
        None => false,
    }
}

/// Classifies a repository from a status list taken of it and the answer of
/// the divergence check.
pub fn classify_list(statuses: &Statuses, diverged: bool) -> (v: GitStatus)
    ensures
        v == verdict(entries_of(statuses), diverged),
{
    let entries = entries_in(statuses);
    classify_entries(&entries, diverged)
}

/// Classifies a repository from a status list taken of it.
///
/// The divergence check is made on `repo`, once, where the first entry is
/// neither staged nor modified, and `classify_list` gives the verdict for
/// its answer. Where the first entry decides, or there is none, the check is
/// not made and the verdict is that of the entries alone.
pub fn classify_statuses(repo: &Repository, statuses: &Statuses) -> (v: GitStatus)
    ensures
        !divergence_in_question(entries_of(statuses)) ==> v == verdict(
            entries_of(statuses),
            false,
        ),
        divergence_in_question(entries_of(statuses)) ==> v == GitStatus::UnpushedCommits || v
            == verdict(entries_of(statuses), false),
{
    let diverged = divergence_asked(statuses) && has_commits_not_pushed(repo);
    proof {
        lemma_verdict_by_divergence(entries_of(statuses));
    }
    classify_list(statuses, diverged)
}

/// What a status query comes to: a query that failed is an error, with the
/// repository's own error in it, never a clean repository; a list is
/// classified as `classify_statuses` does.
pub fn classify_query(repo: &Repository, query: Result<Statuses, Error>) -> (res: Result<
    GitStatus,
    ClassifyError,
>)
    ensures
        query matches Err(error) ==> res == Err::<GitStatus, ClassifyError>(
            ClassifyError::StatusQueryFailed(error),
        ),
        query matches Ok(statuses) ==> {
            &&& res is Ok
            &&& !divergence_in_question(entries_of(&statuses)) ==> res->Ok_0 == verdict(
                entries_of(&statuses),
                false,
            )
            &&& divergence_in_question(entries_of(&statuses)) ==> res->Ok_0
                == GitStatus::UnpushedCommits || res->Ok_0 == verdict(
                entries_of(&statuses),
                false,
            )
        },
{
    match query {
        Ok(statuses) => Ok(classify_statuses(repo, &statuses)),
        Err(error) => Err(ClassifyError::StatusQueryFailed(error)),
    }
}

/// Classifies a repository: queries the status of the index and the working
/// tree, untracked files included, untracked directories searched, and
/// hands the answer to `classify_query`.
///
/// A verdict that comes back is the verdict of a status list made with
/// exactly these options. What the list holds, and whether the query fails,
/// is read from disk, so nothing more is promised here.
pub fn check_status(repo: Repository) -> (res: Result<GitStatus, ClassifyError>)
    ensures
        res matches Ok(v) ==> exists|list: Statuses| #[trigger] answers(&list, v),
{
    let query = query_statuses(&repo, StatusShow::IndexAndWorkdir, true, true);
    let ghost asked = query;
    let res = classify_query(&repo, query);
    proof {
        if asked is Ok {
            lemma_verdict_by_divergence(entries_of(&asked->Ok_0));
            assert(answers(&asked->Ok_0, res->Ok_0));
        }
    }
    res
}

} // verus!
