//! A scan over the directories below one root.

use vstd::prelude::*;
use git2::{Error, Repository};
use std::path::PathBuf;
use git2::Statuses;
use crate::classify::{answers, check_status, ClassifyError};
use crate::git::open_repository;
use crate::paths::{
    failure_of,
    path_from,
    path_is_dir,
    path_text,
    read_dir_entries,
    text_of,
    ListFailure,
};
use crate::report::{aggregate, rendered, summary, texts, Candidate};
use crate::verdict::GitStatus;

verus! {

pub const NOT_FOUND_MSG: &'static str = "Directory not found.";

pub const PERMISSION_DENIED_MSG: &'static str = "Permission to access directory denied.";

pub const UNREADABLE_MSG: &'static str =
    "Error, could not read directory. Please check if given path points to a directory";

/// The items whose mark is set, in their order. An item without a mark of
/// its own, where there are fewer marks than items, counts as not marked.
pub open spec fn marked<T>(items: Seq<T>, marks: Seq<bool>) -> Seq<T>
    decreases items.len(),
{
    if items.len() == 0 {
        Seq::empty()
    } else {
        let before = marked(items.drop_last(), marks);
        let last = items.len() - 1;
        if last < marks.len() && marks[last] {
            before.push(items.last())
        } else {
            before
        }
    }
}

/// Keeps the items whose mark is set, in their order.
pub fn keep_marked<T>(items: Vec<T>, marks: &Vec<bool>) -> (kept: Vec<T>)
    ensures
        kept@ == marked(items@, marks@),
{
    let ghost all = items@;
    let total = items.len();
    let mut kept: Vec<T> = Vec::new();
    let mut i: usize = 0;
    for item in iter: items
        invariant
            all.len() == total,
            iter.seq() == all,
            i == iter.index(),
            kept@ == marked(all.take(i as int), marks@),
    {
        proof {
            assert(all.take(i + 1).drop_last() =~= all.take(i as int));
        }
        if i < marks.len() && marks[i] {
            kept.push(item);
        }
        i = i + 1;
    }
    assert(all.take(all.len() as int) =~= all);
    kept
}

/// The values that are there, in their order.
pub open spec fn present<T>(entries: Seq<Option<T>>) -> Seq<T>
    decreases entries.len(),
{
    if entries.len() == 0 {
        Seq::empty()
    } else {
        let before = present(entries.drop_last());
        match entries.last() {
            Some(value) => before.push(value),
            None => before,
        }
    }
}

/// Keeps the values that are there, in their order.
pub fn keep_present<T>(entries: Vec<Option<T>>) -> (kept: Vec<T>)
    ensures
        kept@ == present(entries@),
{
    let ghost all = entries@;
    let total = entries.len();
    let mut kept: Vec<T> = Vec::new();
    let mut i: usize = 0;
    assert(all.take(0) =~= Seq::<Option<T>>::empty());
    for entry in iter: entries
        invariant
            all.len() == total,
            iter.seq() == all,
            i == iter.index(),
            kept@ == present(all.take(i as int)),
    {
        proof {
            assert(all.take(i + 1).drop_last() =~= all.take(i as int));
        }
        match entry {
            Some(value) => {
                kept.push(value);
            },
            None => {},
        }
        i = i + 1;
    }
    assert(all.take(all.len() as int) =~= all);
    kept
}

/// What a listing comes to: the entries that could be read, in their order;
/// or the error of a listing that failed, as it was.
pub fn readable_of(listing: Result<Vec<Option<PathBuf>>, std::io::Error>) -> (res: Result<
    Vec<PathBuf>,
    std::io::Error,
>)
    ensures
        listing matches Ok(entries) ==> (res matches Ok(kept) && kept@ == present(entries@)),
        listing matches Err(error) ==> res == Err::<Vec<PathBuf>, std::io::Error>(error),
{
    match listing {
        Ok(entries) => Ok(keep_present(entries)),
        Err(error) => Err(error),
    }
}

/// The directories of a listing: the entries whose mark says that they are
/// one, in their order; or the error of a listing that failed, as it was.
pub fn directories_of(listing: Result<Vec<PathBuf>, std::io::Error>, marks: &Vec<bool>) -> (res:
    Result<Vec<PathBuf>, std::io::Error>)
    ensures
        listing matches Ok(entries) ==> (res matches Ok(kept) && kept@ == marked(
            entries@,
            marks@,
        )),
        listing matches Err(error) ==> res == Err::<Vec<PathBuf>, std::io::Error>(error),
{
    match listing {
        Ok(entries) => Ok(keep_marked(entries, marks)),
        Err(error) => Err(error),
    }
}

/// Asks of each entry whether it is a directory.
pub fn directory_marks(entries: &Vec<PathBuf>) -> (marks: Vec<bool>)
    ensures
        marks.len() == entries.len(),
{
    let mut marks: Vec<bool> = Vec::new();
    let mut i: usize = 0;
    while i < entries.len()
        invariant
            i <= entries.len(),
            marks.len() == i,
        decreases entries.len() - i,
    {
        marks.push(path_is_dir(&entries[i]));
        i = i + 1;
    }
    marks
}

/// The directories directly below `path`, in the order in which the system
/// lists them. Entries that cannot be read are passed over; a directory that
/// cannot be listed at all is an error, handed on as the system gave it.
///
/// `readable_of` drops the entries that could not be read, each of the
/// others is asked whether it is a directory, and `directories_of` keeps
/// those that said so: a list that comes back is made in this way of some
/// listing and some answers, one for each entry that could be read. The
/// entries and their answers are read from disk, so nothing is promised here
/// of which they are.
pub fn list_directories(path: &PathBuf) -> (res: Result<Vec<PathBuf>, std::io::Error>)
    ensures
        res matches Ok(kept) ==> exists|entries: Seq<Option<PathBuf>>, marks: Seq<bool>|
            marks.len() == present(entries).len() && kept@ == #[trigger] marked(
                present(entries),
                marks,
            ),
{
    let listed = read_dir_entries(path);
    let ghost listed_entries = listed;
    let listing = readable_of(listed);
    let marks = match &listing {
        Ok(entries) => directory_marks(entries),
        Err(_) => Vec::new(),
    };
    let res = directories_of(listing, &marks);
    proof {
        if res is Ok {
            assert(res->Ok_0@ == marked(present(listed_entries->Ok_0@), marks@));
        }
    }
    res
}

/// The text of a failure to list the root directory.
pub open spec fn failure_text(failure: ListFailure) -> Seq<char> {
    match failure {
        ListFailure::NotFound => NOT_FOUND_MSG@,
        ListFailure::PermissionDenied => PERMISSION_DENIED_MSG@,
        ListFailure::Unreadable => UNREADABLE_MSG@,
    }
}

pub fn failure_message(failure: ListFailure) -> (message: &'static str)
    ensures
        message@ == failure_text(failure),
{
    match failure {
        ListFailure::NotFound => NOT_FOUND_MSG,
        ListFailure::PermissionDenied => PERMISSION_DENIED_MSG,
        ListFailure::Unreadable => UNREADABLE_MSG,
    }
}

/// What there is to check in a directory: the repository that it opened as
/// and its path as text, where both are there.
pub fn subject_of(opened: Result<Repository, Error>, text: Option<String>) -> (subject: Option<
    (Repository, String),
>)
    ensures
        opened is Ok && text is Some ==> subject == Some((opened->Ok_0, text->Some_0)),
        opened is Err || text is None ==> subject is None,
{
    match opened {
        Ok(repository) => match text {
            Some(path) => Some((repository, path)),
            None => None,
        },
        Err(_) => None,
    }
}

/// The candidate that a directory becomes: skipped where there was nothing
/// to check; else classified under its path, or named as a failure.
pub fn candidate_of(checked: Option<(String, Result<GitStatus, ClassifyError>)>) -> (candidate:
    Candidate)
    ensures
        checked is None ==> candidate == Candidate::Skipped,
        checked matches Some((path, Ok(verdict))) ==> candidate == Candidate::Classified(
            path,
            verdict,
        ),
        checked matches Some((path, Err(_))) ==> candidate == Candidate::Failed(path),
{
    match checked {
        None => Candidate::Skipped,
        Some((path, Ok(verdict))) => Candidate::Classified(path, verdict),
        Some((path, Err(_))) => Candidate::Failed(path),
    }
}

/// The verdict of a classified candidate is the verdict of a status list
/// made with the options of the one status query.
pub open spec fn checked(candidate: Candidate) -> bool {
    candidate matches Candidate::Classified(_, v) ==> exists|list: Statuses| #[trigger]
        answers(&list, v)
}

/// `candidate` is what can come of looking at `directory`: a directory
/// whose path is no text is skipped; a candidate that is classified or named
/// as a failure carries exactly the text of the directory's path; and the
/// verdict of a classified one is `checked`.
pub open spec fn examined(directory: &PathBuf, candidate: Candidate) -> bool {
    &&& text_of(directory) is None ==> candidate == Candidate::Skipped
    &&& candidate matches Candidate::Classified(path, _) ==> text_of(directory) == Some(path@)
    &&& candidate matches Candidate::Failed(path) ==> text_of(directory) == Some(path@)
    &&& checked(candidate)
}

/// Looks at one directory: opens it as a repository, takes its path as
/// text, and checks the status of what `subject_of` makes of the two;
/// `candidate_of` says which candidate that is.
///
/// A directory that is no repository is skipped, and so is one whose path is
/// no valid text. Whether the directory opens and what it holds is read from
/// disk, so nothing more than `examined` is promised here of which candidate
/// comes back.
pub fn examine(directory: &PathBuf) -> (candidate: Candidate)
    ensures
        examined(directory, candidate),
{
    let subject = subject_of(open_repository(directory), path_text(directory));
    let checked = match subject {
        Some((repository, path)) => Some((path, check_status(repository))),
        None => None,
    };
    candidate_of(checked)
}

/// Looks at each directory in turn: one candidate for each directory, in
/// the directories' order, each what `examine` makes of its directory.
pub fn scan(directories: &Vec<PathBuf>) -> (candidates: Vec<Candidate>)
    ensures
        candidates.len() == directories.len(),
        forall|i: int|
            0 <= i < directories.len() ==> examined(&directories[i], #[trigger] candidates[i]),
{
    let mut candidates: Vec<Candidate> = Vec::new();
    let mut i: usize = 0;
    while i < directories.len()
        invariant
            i <= directories.len(),
            candidates.len() == i,
            forall|j: int| 0 <= j < i ==> examined(&directories[j], #[trigger] candidates[j]),
        decreases directories.len() - i,
    {
        candidates.push(examine(&directories[i]));
        i = i + 1;
    }
    candidates
}

/// What a run prints and how it ends.
#[derive(Clone, Debug)]
pub struct Outcome {
    pub lines: Vec<String>,
    pub exit_code: i32,
}

/// The outcome of a run whose root directory could not be listed.
pub fn listing_failed(failure: ListFailure) -> (outcome: Outcome)
    ensures
        outcome.exit_code == 1,
        texts(outcome.lines@) == seq![failure_text(failure)],
{
    let mut lines: Vec<String> = Vec::new();
    lines.push(String::from_str(failure_message(failure)));
    Outcome { lines, exit_code: 1 }
}

/// The outcome of a run that looked at the given candidates.
pub fn scanned(candidates: &Vec<Candidate>) -> (outcome: Outcome)
    ensures
        outcome.exit_code == 0,
        texts(outcome.lines@) == rendered(summary(candidates@)),
{
    let report = aggregate(candidates);
    Outcome { lines: report.render(), exit_code: 0 }
}

/// Scans the directories directly below `path_string` and reports on them.
///
/// Where the root cannot be listed, the run fails with the one line that
/// says why. Otherwise it succeeds with the report over one candidate per
/// directory, each verdict that of a status list made with the options of
/// the one status query. What the directories hold is read from disk, so
/// nothing is promised of which failure or which candidates these are.
pub fn driver(path_string: &str) -> (outcome: Outcome)
    ensures
        outcome.exit_code == 1 ==> exists|failure: ListFailure|
            texts(outcome.lines@) == seq![#[trigger] failure_text(failure)],
        outcome.exit_code == 0 ==> exists|candidates: Seq<Candidate>|
            texts(outcome.lines@) == rendered(#[trigger] summary(candidates)) && forall|i: int|
                0 <= i < candidates.len() ==> checked(#[trigger] candidates[i]),
        outcome.exit_code == 0 || outcome.exit_code == 1,
{
    let root = path_from(path_string);
    match list_directories(&root) {
        Ok(directories) => {
            let candidates = scan(&directories);
            scanned(&candidates)
        },
        Err(error) => {
            listing_failed(failure_of(&error))
        },
    }
}

} // verus!
