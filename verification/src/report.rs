//! The report over many repositories: buckets by verdict, and the lines
//! that show them.

use vstd::prelude::*;
use crate::verdict::GitStatus;

verus! {

pub const ALL_GOOD: &'static str = "All good!";

pub const UNPUSHED_COMMITS_MSG: &'static str = "Directories with unpushed commits:";

pub const STAGED_CHANGES_MSG: &'static str = "Directories with staged changes:";

pub const MODIFIED_FILES_MSG: &'static str = "Directories with modified files:";

pub const BULLET: &'static str = "  * ";

pub const STATUS_FAILED_MSG: &'static str = "Could not check status for ";

/// What became of one candidate directory.
#[derive(Clone, Debug)]
pub enum Candidate {
    /// Not a repository, or a path that is no text: left out without a word.
    Skipped,
    /// A repository whose status could not be checked.
    Failed(String),
    /// A repository and its verdict.
    Classified(String, GitStatus),
}

/// The text of each line.
pub open spec fn texts(lines: Seq<String>) -> Seq<Seq<char>> {
    lines.map_values(|line: String| line@)
}

/// The paths of the candidates with verdict `status`, in the candidates' order.
pub open spec fn bucket(candidates: Seq<Candidate>, status: GitStatus) -> Seq<Seq<char>>
    decreases candidates.len(),
{
    if candidates.len() == 0 {
        Seq::empty()
    } else {
        let before = bucket(candidates.drop_last(), status);
        match candidates.last() {
            Candidate::Classified(path, found) => if found == status {
                before.push(path@)
            } else {
                before
            },
            _ => before,
        }
    }
}

/// The paths of the candidates whose status could not be checked, in the
/// candidates' order.
pub open spec fn failures(candidates: Seq<Candidate>) -> Seq<Seq<char>>
    decreases candidates.len(),
{
    if candidates.len() == 0 {
        Seq::empty()
    } else {
        let before = failures(candidates.drop_last());
        match candidates.last() {
            Candidate::Failed(path) => before.push(path@),
            _ => before,
        }
    }
}

/// A candidate that does not stand in the way of "all good": one that was
/// skipped, or a repository without changes.
pub open spec fn unremarkable(candidate: Candidate) -> bool {
    match candidate {
        Candidate::Skipped => true,
        Candidate::Failed(_) => false,
        Candidate::Classified(_, status) => status == GitStatus::NoChanges,
    }
}

/// What a report holds, as plain sequences of path texts.
pub struct ReportView {
    pub unpushed_commits: Seq<Seq<char>>,
    pub staged: Seq<Seq<char>>,
    pub modified: Seq<Seq<char>>,
    pub failed: Seq<Seq<char>>,
    pub no_changes: nat,
}

impl ReportView {
    /// Nothing needs attention.
    pub open spec fn all_good(self) -> bool {
        &&& self.unpushed_commits.len() == 0
        &&& self.staged.len() == 0
        &&& self.modified.len() == 0
        &&& self.failed.len() == 0
    }
}

/// The report over the given candidates.
pub open spec fn summary(candidates: Seq<Candidate>) -> ReportView {
    ReportView {
        unpushed_commits: bucket(candidates, GitStatus::UnpushedCommits),
        staged: bucket(candidates, GitStatus::Staged),
        modified: bucket(candidates, GitStatus::Modified),
        failed: failures(candidates),
        no_changes: bucket(candidates, GitStatus::NoChanges).len(),
    }
}

/// One bullet line.
pub open spec fn bullet(path: Seq<char>) -> Seq<char> {
    BULLET@ + path
}

/// A header and one bullet per path, or nothing where there is no path.
pub open spec fn section(message: Seq<char>, paths: Seq<Seq<char>>) -> Seq<Seq<char>> {
    if paths.len() == 0 {
        Seq::empty()
    } else {
        seq![message] + paths.map_values(|path: Seq<char>| bullet(path))
    }
}

/// One line per repository whose status could not be checked.
pub open spec fn failure_lines(paths: Seq<Seq<char>>) -> Seq<Seq<char>> {
    paths.map_values(|path: Seq<char>| STATUS_FAILED_MSG@ + path)
}

/// The lines of a report: the failures first; then either the one line
/// that all is good, or the non-empty buckets, the unpushed first, then the
/// staged, then the modified.
pub open spec fn rendered(report: ReportView) -> Seq<Seq<char>> {
    failure_lines(report.failed) + if report.all_good() {
        seq![ALL_GOOD@]
    } else {
        section(UNPUSHED_COMMITS_MSG@, report.unpushed_commits) + section(
            STAGED_CHANGES_MSG@,
            report.staged,
        ) + section(MODIFIED_FILES_MSG@, report.modified)
    }
}

/// The report of one scan.
#[derive(Clone, Debug)]
pub struct Report {
    pub unpushed_commits: Vec<String>,
    pub staged: Vec<String>,
    pub modified: Vec<String>,
    pub failed: Vec<String>,
    pub no_changes: usize,
}

impl View for Report {
    type V = ReportView;

    open spec fn view(&self) -> ReportView {
        ReportView {
            unpushed_commits: texts(self.unpushed_commits@),
            staged: texts(self.staged@),
            modified: texts(self.modified@),
            failed: texts(self.failed@),
            no_changes: self.no_changes as nat,
        }
    }
}

proof fn lemma_texts_push(lines: Seq<String>, line: String)
    ensures
        texts(lines.push(line)) == texts(lines).push(line@),
{
}

proof fn lemma_take_next<T>(items: Seq<T>, i: int)
    requires
        0 <= i < items.len(),
    ensures
        items.take(i + 1).drop_last() == items.take(i),
        items.take(i + 1).last() == items[i],
{
}

/// The lines of one bucket: nothing for an empty one, else the header and
/// one bullet per directory, in the given order.
pub fn status_lines(directories: &Vec<String>, message: &str) -> (lines: Vec<String>)
    ensures
        texts(lines@) == section(message@, texts(directories@)),
{
    let mut lines: Vec<String> = Vec::new();
    if directories.len() == 0 {
        return lines;
    }
    lines.push(String::from_str(message));
    let ghost paths = texts(directories@);
    let mut i: usize = 0;
    while i < directories.len()
        invariant
            i <= directories.len(),
            paths == texts(directories@),
            texts(lines@) == seq![message@] + paths.take(i as int).map_values(
                |path: Seq<char>| bullet(path),
            ),
        decreases directories.len() - i,
    {
        let mut line = String::from_str(BULLET);
        line.append(directories[i].as_str());
        proof {
            lemma_texts_push(lines@, line);
        }
        lines.push(line);
        i = i + 1;
    }
    lines
}

impl Report {
    pub fn new() -> (report: Report)
        ensures
            report@ == summary(Seq::<Candidate>::empty()),
    {
        let report = Report {
            unpushed_commits: Vec::new(),
            staged: Vec::new(),
            modified: Vec::new(),
            failed: Vec::new(),
            no_changes: 0,
        };
        assert(texts(Seq::<String>::empty()) =~= Seq::<Seq<char>>::empty());
        report
    }

    /// Whether every repository that was looked at is without changes.
    pub fn is_all_good(&self) -> (good: bool)
        ensures
            good == self@.all_good(),
    {
        self.unpushed_commits.len() == 0 && self.staged.len() == 0 && self.modified.len() == 0
            && self.failed.len() == 0
    }

    /// The lines that show the report.
    pub fn render(&self) -> (lines: Vec<String>)
        ensures
            texts(lines@) == rendered(self@),
    {
        let mut lines: Vec<String> = Vec::new();
        let ghost failed = texts(self.failed@);
        let mut i: usize = 0;
        while i < self.failed.len()
            invariant
                i <= self.failed.len(),
                failed == texts(self.failed@),
                texts(lines@) == failure_lines(failed.take(i as int)),
            decreases self.failed.len() - i,
        {
            let mut line = String::from_str(STATUS_FAILED_MSG);
            line.append(self.failed[i].as_str());
            proof {
                lemma_texts_push(lines@, line);
            }
            lines.push(line);
            i = i + 1;
        }
        if self.is_all_good() {
            let line = String::from_str(ALL_GOOD);
            proof {
                lemma_texts_push(lines@, line);
            }
            lines.push(line);
        } else {
            let ghost shown = texts(lines@);
            let mut unpushed = status_lines(&self.unpushed_commits, UNPUSHED_COMMITS_MSG);
            let mut staged = status_lines(&self.staged, STAGED_CHANGES_MSG);
            let mut modified = status_lines(&self.modified, MODIFIED_FILES_MSG);
            let ghost first = texts(unpushed@);
            let ghost second = texts(staged@);
            let ghost third = texts(modified@);
            lines.append(&mut unpushed);
            lines.append(&mut staged);
            lines.append(&mut modified);
            assert(texts(lines@) =~= shown + (first + second + third));
        }
        lines
    }
}

/// Buckets the candidates by verdict, each bucket in the candidates' order,
/// and counts the repositories without changes.
pub fn aggregate(candidates: &Vec<Candidate>) -> (report: Report)
    ensures
        report@ == summary(candidates@),
{
    let mut report = Report::new();
    let mut i: usize = 0;
    while i < candidates.len()
        invariant
            i <= candidates.len(),
            report@ == summary(candidates@.take(i as int)),
        decreases candidates.len() - i,
    {
        proof {
            lemma_take_next(candidates@, i as int);
            lemma_bucket_len(candidates@.take(i as int), GitStatus::NoChanges);
        }
        match &candidates[i] {
            Candidate::Skipped => {},
            Candidate::Failed(path) => {
                proof {
                    lemma_texts_push(report.failed@, *path);
                }
                report.failed.push(path.clone());
            },
            Candidate::Classified(path, status) => {
                match status {
                    GitStatus::NoChanges => {
                        report.no_changes = report.no_changes + 1;
                    },
                    GitStatus::Modified => {
                        proof {
                            lemma_texts_push(report.modified@, *path);
                        }
                        report.modified.push(path.clone());
                    },
                    GitStatus::Staged => {
                        proof {
                            lemma_texts_push(report.staged@, *path);
                        }
                        report.staged.push(path.clone());
                    },
                    GitStatus::UnpushedCommits => {
                        proof {
                            lemma_texts_push(report.unpushed_commits@, *path);
                        }
                        report.unpushed_commits.push(path.clone());
                    },
                }
            },
        }
        i = i + 1;
    }
    assert(candidates@.take(candidates.len() as int) =~= candidates@);
    report
}

/// A bucket holds at most as many paths as there are candidates.
pub proof fn lemma_bucket_len(candidates: Seq<Candidate>, status: GitStatus)
    ensures
        bucket(candidates, status).len() <= candidates.len(),
    decreases candidates.len(),
{
    if candidates.len() > 0 {
        lemma_bucket_len(candidates.drop_last(), status);
    }
}

/// A report says that all is good exactly where every candidate was either
/// skipped or found without changes.
pub proof fn lemma_all_good_iff_unremarkable(candidates: Seq<Candidate>)
    ensures
        summary(candidates).all_good() <==> forall|i: int|
            0 <= i < candidates.len() ==> unremarkable(#[trigger] candidates[i]),
    decreases candidates.len(),
{
    if candidates.len() > 0 {
        let before = candidates.drop_last();
        lemma_all_good_iff_unremarkable(before);
        if forall|i: int| 0 <= i < candidates.len() ==> unremarkable(#[trigger] candidates[i]) {
            assert forall|i: int| 0 <= i < before.len() implies unremarkable(
                #[trigger] before[i],
            ) by {
                assert(before[i] == candidates[i]);
            }
        }
        if summary(candidates).all_good() {
            assert forall|i: int| 0 <= i < candidates.len() implies unremarkable(
                #[trigger] candidates[i],
            ) by {
                if i < before.len() {
                    assert(before[i] == candidates[i]);
                }
            }
        }
    }
}

} // verus!
