use std::io::Write;
use std::path::{Path, PathBuf};

use git2::{Oid, Repository};
use ggs::classify::{
    check_status, classify_list, classify_query, classify_statuses, divergence_asked, entries_in,
    ClassifyError,
};
use ggs::flags::{StatusFlags, INDEX_NEW, WT_MODIFIED, WT_NEW};
use ggs::divergence::{has_commits_not_pushed, resolve, ResolutionError, OID_LEN};
use ggs::scan::{directory_marks, driver, examine, list_directories, scan, subject_of};
use ggs::report::Candidate;
use ggs::verdict::GitStatus;

fn subdir(root: &Path, name: &str) -> PathBuf {
    tempfile::Builder::new()
        .prefix(name)
        .rand_bytes(0)
        .tempdir_in(root)
        .unwrap()
        .keep()
}

fn put_file(dir: &Path, name: &str, content: &[u8]) -> Box<dyn Write> {
    let mut file = tempfile::Builder::new()
        .prefix(name)
        .rand_bytes(0)
        .tempfile_in(dir)
        .unwrap();
    file.write_all(content).unwrap();
    file.flush().unwrap();
    let (file, _) = file.keep().unwrap();
    Box::new(file)
}

fn commit_all(repo: &Repository, message: &str) -> Oid {
    let mut index = repo.index().unwrap();
    index
        .add_all(["*"], git2::IndexAddOption::DEFAULT, None)
        .unwrap();
    index.write().unwrap();
    let tree = repo.find_tree(index.write_tree().unwrap()).unwrap();
    let author = git2::Signature::now("tester", "tester@example.com").unwrap();
    let parents: Vec<git2::Commit> = match repo.head() {
        Ok(head) => vec![head.peel_to_commit().unwrap()],
        Err(_) => vec![],
    };
    let parents: Vec<&git2::Commit> = parents.iter().collect();
    repo.commit(Some("HEAD"), &author, &author, message, &tree, &parents)
        .unwrap()
}

/// A repository with one committed file; the handle writes on to that file.
fn clean_repo(dir: &Path) -> (Repository, Oid, Box<dyn Write>) {
    let repo = Repository::init(dir).unwrap();
    let file = put_file(dir, "readme.txt", b"hello\n");
    let first = commit_all(&repo, "first");
    (repo, first, file)
}

fn stage_new_file(repo: &Repository, dir: &Path, name: &str) {
    put_file(dir, name, b"new\n");
    let mut index = repo.index().unwrap();
    index.add_path(Path::new(name)).unwrap();
    index.write().unwrap();
}

fn follow_upstream_at(repo: &Repository, target: Oid) {
    let name = repo.head().unwrap().shorthand().unwrap().to_string();
    repo.remote("origin", "https://example.invalid/repo.git")
        .unwrap();
    repo.reference(&format!("refs/remotes/origin/{}", name), target, true, "test")
        .unwrap();
    let mut branch = repo.find_branch(&name, git2::BranchType::Local).unwrap();
    branch
        .set_upstream(Some(&format!("origin/{}", name)))
        .unwrap();
}

/// A repository with two commits whose upstream stands at the first.
fn ahead_repo(dir: &Path) -> Repository {
    let (repo, first, _) = clean_repo(dir);
    put_file(dir, "second.txt", b"more\n");
    commit_all(&repo, "second");
    follow_upstream_at(&repo, first);
    repo
}

fn text(path: &Path) -> String {
    path.to_str().unwrap().to_string()
}

#[test]
fn clean_repository_has_no_changes() {
    let root = tempfile::tempdir().unwrap();
    let (repo, _, _) = clean_repo(root.path());
    assert_eq!(check_status(repo), Ok(GitStatus::NoChanges));
}

#[test]
fn staged_new_file_is_staged() {
    let root = tempfile::tempdir().unwrap();
    let (repo, _, _) = clean_repo(root.path());
    stage_new_file(&repo, root.path(), "added.txt");
    assert_eq!(check_status(repo), Ok(GitStatus::Staged));
}

#[test]
fn modified_file_is_modified() {
    let root = tempfile::tempdir().unwrap();
    let (repo, _, mut file) = clean_repo(root.path());
    file.write_all(b"changed\n").unwrap();
    file.flush().unwrap();
    assert_eq!(check_status(repo), Ok(GitStatus::Modified));
}

#[test]
fn untracked_file_alone_is_no_changes() {
    let root = tempfile::tempdir().unwrap();
    let (repo, _, _) = clean_repo(root.path());
    put_file(root.path(), "loose.txt", b"loose\n");
    assert_eq!(check_status(repo), Ok(GitStatus::NoChanges));
}

#[test]
fn untracked_file_in_a_new_directory_is_listed() {
    let root = tempfile::tempdir().unwrap();
    let (repo, first, _) = clean_repo(root.path());
    follow_upstream_at(&repo, first);
    let inner = subdir(root.path(), "inner");
    put_file(&inner, "deep.txt", b"deep\n");
    let mut options = git2::StatusOptions::new();
    options.show(git2::StatusShow::IndexAndWorkdir);
    options.include_untracked(true);
    options.recurse_untracked_dirs(true);
    let statuses = repo.statuses(Some(&mut options)).unwrap();
    assert_eq!(statuses.len(), 1);
    assert_eq!(statuses.get(0).unwrap().path(), Ok("inner/deep.txt"));
    assert_eq!(classify_statuses(&repo, &statuses), GitStatus::NoChanges);
}

#[test]
fn unpushed_commits_without_status_entries_are_not_seen() {
    let root = tempfile::tempdir().unwrap();
    let repo = ahead_repo(root.path());
    assert!(has_commits_not_pushed(&repo));
    assert_eq!(check_status(repo), Ok(GitStatus::NoChanges));
}

#[test]
fn unpushed_commits_are_seen_beside_an_untracked_file() {
    let root = tempfile::tempdir().unwrap();
    let repo = ahead_repo(root.path());
    put_file(root.path(), "loose.txt", b"loose\n");
    assert_eq!(check_status(repo), Ok(GitStatus::UnpushedCommits));
}

#[test]
fn staged_first_entry_wins_over_unpushed_commits() {
    let root = tempfile::tempdir().unwrap();
    let repo = ahead_repo(root.path());
    stage_new_file(&repo, root.path(), "added.txt");
    put_file(root.path(), "zz_loose.txt", b"loose\n");
    assert!(has_commits_not_pushed(&repo));
    assert_eq!(check_status(repo), Ok(GitStatus::Staged));
}

#[test]
fn modified_first_entry_wins_over_unpushed_commits() {
    let root = tempfile::tempdir().unwrap();
    let (repo, first, mut file) = clean_repo(root.path());
    put_file(root.path(), "second.txt", b"more\n");
    commit_all(&repo, "second");
    follow_upstream_at(&repo, first);
    file.write_all(b"changed\n").unwrap();
    file.flush().unwrap();
    assert!(has_commits_not_pushed(&repo));
    assert_eq!(check_status(repo), Ok(GitStatus::Modified));
}

#[test]
fn untracked_entry_before_a_staged_one_shows_unpushed_commits() {
    let root = tempfile::tempdir().unwrap();
    let repo = ahead_repo(root.path());
    put_file(root.path(), "a_loose.txt", b"loose\n");
    stage_new_file(&repo, root.path(), "b_added.txt");
    assert_eq!(check_status(repo), Ok(GitStatus::UnpushedCommits));
}

#[test]
fn untracked_entry_before_a_staged_one_is_staged_without_divergence() {
    let root = tempfile::tempdir().unwrap();
    let (repo, _, _) = clean_repo(root.path());
    put_file(root.path(), "a_loose.txt", b"loose\n");
    stage_new_file(&repo, root.path(), "b_added.txt");
    assert_eq!(check_status(repo), Ok(GitStatus::Staged));
}

#[test]
fn classify_statuses_reads_the_list_it_is_given() {
    let root = tempfile::tempdir().unwrap();
    let (repo, _, mut file) = clean_repo(root.path());
    put_file(root.path(), "a_loose.txt", b"loose\n");
    file.write_all(b"changed\n").unwrap();
    file.flush().unwrap();
    let mut options = git2::StatusOptions::new();
    options.include_untracked(true);
    let statuses = repo.statuses(Some(&mut options)).unwrap();
    assert_eq!(statuses.len(), 2);
    assert_eq!(classify_statuses(&repo, &statuses), GitStatus::Modified);
    let mut options = git2::StatusOptions::new();
    options.include_untracked(false);
    options.show(git2::StatusShow::Index);
    let statuses = repo.statuses(Some(&mut options)).unwrap();
    assert_eq!(statuses.len(), 0);
    assert_eq!(classify_statuses(&repo, &statuses), GitStatus::NoChanges);
}

#[test]
fn classifying_twice_gives_the_same_verdict() {
    let root = tempfile::tempdir().unwrap();
    let repo = ahead_repo(root.path());
    put_file(root.path(), "loose.txt", b"loose\n");
    drop(repo);
    let first = check_status(Repository::open(root.path()).unwrap());
    let second = check_status(Repository::open(root.path()).unwrap());
    assert_eq!(first, Ok(GitStatus::UnpushedCommits));
    assert_eq!(first, second);
}

#[test]
fn branch_without_upstream_has_nothing_unpushed() {
    let root = tempfile::tempdir().unwrap();
    let (repo, _, _) = clean_repo(root.path());
    put_file(root.path(), "second.txt", b"more\n");
    commit_all(&repo, "second");
    assert_eq!(resolve(&repo).unwrap_err(), ResolutionError::NoUpstream);
    assert!(!has_commits_not_pushed(&repo));
}

#[test]
fn branch_at_its_upstream_has_nothing_unpushed() {
    let root = tempfile::tempdir().unwrap();
    let (repo, first, _) = clean_repo(root.path());
    follow_upstream_at(&repo, first);
    let pair = resolve(&repo).unwrap();
    assert_eq!(pair.local_id, first.as_bytes().to_vec());
    assert_eq!(pair.upstream_id, first.as_bytes().to_vec());
    assert_eq!(pair.local_id.len(), OID_LEN);
    assert_eq!(pair.upstream_id.len(), OID_LEN);
    assert!(!has_commits_not_pushed(&repo));
}

#[test]
fn branch_ahead_of_its_upstream_has_unpushed_commits() {
    let root = tempfile::tempdir().unwrap();
    let (repo, first, _) = clean_repo(root.path());
    put_file(root.path(), "second.txt", b"more\n");
    let second = commit_all(&repo, "second");
    follow_upstream_at(&repo, first);
    let name = repo.head().unwrap().shorthand().unwrap().to_string();
    let pair = resolve(&repo).unwrap();
    assert_eq!(pair.local_name, format!("refs/heads/{}", name));
    assert_eq!(pair.upstream_name, format!("refs/remotes/origin/{}", name));
    assert_eq!(pair.local_id, second.as_bytes().to_vec());
    assert_eq!(pair.upstream_id, first.as_bytes().to_vec());
    assert!(has_commits_not_pushed(&repo));
}

#[test]
fn branch_behind_its_upstream_counts_as_unpushed() {
    let root = tempfile::tempdir().unwrap();
    let (repo, first, _) = clean_repo(root.path());
    put_file(root.path(), "second.txt", b"more\n");
    let second = commit_all(&repo, "second");
    follow_upstream_at(&repo, second);
    let name = repo.head().unwrap().name().unwrap().to_string();
    repo.reference(&name, first, true, "back").unwrap();
    assert!(has_commits_not_pushed(&repo));
}

#[test]
fn repository_without_commits_has_no_head() {
    let root = tempfile::tempdir().unwrap();
    let repo = Repository::init(root.path()).unwrap();
    assert_eq!(resolve(&repo).unwrap_err(), ResolutionError::NoHead);
    assert!(!has_commits_not_pushed(&repo));
}

#[test]
fn detached_head_names_no_branch() {
    let root = tempfile::tempdir().unwrap();
    let (repo, first, _) = clean_repo(root.path());
    follow_upstream_at(&repo, first);
    repo.set_head_detached(first).unwrap();
    assert_eq!(resolve(&repo).unwrap_err(), ResolutionError::NoBranchName);
    assert!(!has_commits_not_pushed(&repo));
}

#[test]
fn list_directories_keeps_directories_only() {
    let root = tempfile::tempdir().unwrap();
    let one = subdir(root.path(), "one");
    let two = subdir(root.path(), "two");
    put_file(root.path(), "file.txt", b"x");
    let mut found = list_directories(&root.path().to_path_buf()).unwrap();
    found.sort();
    assert_eq!(found, vec![one, two]);
}

#[test]
fn list_directories_of_an_empty_directory_is_empty() {
    let root = tempfile::tempdir().unwrap();
    assert_eq!(
        list_directories(&root.path().to_path_buf()).unwrap(),
        Vec::<PathBuf>::new()
    );
}

#[test]
fn list_directories_fails_on_a_missing_path() {
    let root = tempfile::tempdir().unwrap();
    let error = list_directories(&root.path().join("absent")).unwrap_err();
    assert_eq!(error.kind(), std::io::ErrorKind::NotFound);
}

#[test]
fn list_directories_fails_on_a_file() {
    let root = tempfile::tempdir().unwrap();
    put_file(root.path(), "file.txt", b"x");
    assert!(list_directories(&root.path().join("file.txt")).is_err());
}

#[test]
fn examine_skips_what_is_no_repository() {
    let root = tempfile::tempdir().unwrap();
    let plain = subdir(root.path(), "plain");
    assert!(matches!(examine(&plain), Candidate::Skipped));
}

#[test]
fn examine_classifies_a_repository_under_its_path() {
    let root = tempfile::tempdir().unwrap();
    let dir = subdir(root.path(), "repo");
    let (repo, _, _) = clean_repo(&dir);
    stage_new_file(&repo, &dir, "added.txt");
    match examine(&dir) {
        Candidate::Classified(path, status) => {
            assert_eq!(path, text(&dir));
            assert_eq!(status, GitStatus::Staged);
        }
        other => panic!("unexpected candidate {:?}", other),
    }
}

#[test]
fn scan_looks_at_each_directory_in_order() {
    let root = tempfile::tempdir().unwrap();
    let plain = subdir(root.path(), "plain");
    let dir = subdir(root.path(), "repo");
    clean_repo(&dir);
    let candidates = scan(&vec![plain, dir.clone()]);
    assert_eq!(candidates.len(), 2);
    assert!(matches!(candidates[0], Candidate::Skipped));
    match &candidates[1] {
        Candidate::Classified(path, status) => {
            assert_eq!(path, &text(&dir));
            assert_eq!(*status, GitStatus::NoChanges);
        }
        other => panic!("unexpected candidate {:?}", other),
    }
}

#[test]
fn three_repositories_one_staged_one_modified_one_clean() {
    let root = tempfile::tempdir().unwrap();
    let clean = subdir(root.path(), "clean");
    clean_repo(&clean);
    let modified = subdir(root.path(), "modified");
    let (_, _, mut file) = clean_repo(&modified);
    put_file(&modified, "a_untracked.txt", b"loose\n");
    file.write_all(b"changed\n").unwrap();
    file.flush().unwrap();
    let staged = subdir(root.path(), "staged");
    let (repo, _, _) = clean_repo(&staged);
    stage_new_file(&repo, &staged, "added.txt");
    let outcome = driver(&text(root.path()));
    assert_eq!(outcome.exit_code, 0);
    assert_eq!(
        outcome.lines,
        vec![
            String::from("Directories with staged changes:"),
            format!("  * {}", text(&staged)),
            String::from("Directories with modified files:"),
            format!("  * {}", text(&modified)),
        ]
    );
    assert!(!outcome.lines.contains(&String::from("All good!")));
}

#[test]
fn clean_repository_beside_a_plain_directory_is_all_good() {
    let root = tempfile::tempdir().unwrap();
    let clean = subdir(root.path(), "clean");
    clean_repo(&clean);
    subdir(root.path(), "plain");
    let outcome = driver(&text(root.path()));
    assert_eq!(outcome.lines, vec![String::from("All good!")]);
    assert_eq!(outcome.exit_code, 0);
}

#[test]
fn missing_root_is_reported_and_fails() {
    let root = tempfile::tempdir().unwrap();
    let outcome = driver(&text(&root.path().join("absent")));
    assert_eq!(outcome.lines, vec![String::from("Directory not found.")]);
    assert_eq!(outcome.exit_code, 1);
}

#[test]
fn root_that_is_a_file_is_reported_as_unreadable() {
    let root = tempfile::tempdir().unwrap();
    put_file(root.path(), "file.txt", b"x");
    let outcome = driver(&text(&root.path().join("file.txt")));
    assert_eq!(
        outcome.lines,
        vec![String::from(
            "Error, could not read directory. Please check if given path points to a directory"
        )]
    );
    assert_eq!(outcome.exit_code, 1);
}

#[test]
fn unpushed_repository_is_listed_first() {
    let root = tempfile::tempdir().unwrap();
    let ahead = subdir(root.path(), "ahead");
    ahead_repo(&ahead);
    put_file(&ahead, "loose.txt", b"loose\n");
    let staged = subdir(root.path(), "staged");
    let (repo, _, _) = clean_repo(&staged);
    stage_new_file(&repo, &staged, "added.txt");
    let outcome = driver(&text(root.path()));
    assert_eq!(
        outcome.lines,
        vec![
            String::from("Directories with unpushed commits:"),
            format!("  * {}", text(&ahead)),
            String::from("Directories with staged changes:"),
            format!("  * {}", text(&staged)),
        ]
    );
}

#[test]
fn bare_repository_cannot_be_classified() {
    let root = tempfile::tempdir().unwrap();
    let repo = Repository::init_bare(root.path()).unwrap();
    match check_status(repo) {
        Err(ClassifyError::StatusQueryFailed(error)) => {
            assert_eq!(error.code(), git2::ErrorCode::BareRepo);
        }
        other => panic!("unexpected outcome {:?}", other),
    }
}

#[test]
fn examine_names_a_repository_that_cannot_be_classified() {
    let root = tempfile::tempdir().unwrap();
    let bare = subdir(root.path(), "bare");
    Repository::init_bare(&bare).unwrap();
    match examine(&bare) {
        Candidate::Failed(path) => assert_eq!(path, text(&bare)),
        other => panic!("unexpected candidate {:?}", other),
    }
}

#[test]
fn unclassifiable_repository_is_reported_by_name() {
    let root = tempfile::tempdir().unwrap();
    let bare = subdir(root.path(), "bare");
    Repository::init_bare(&bare).unwrap();
    let outcome = driver(&text(root.path()));
    assert_eq!(
        outcome.lines,
        vec![format!("Could not check status for {}", text(&bare))]
    );
    assert_eq!(outcome.exit_code, 0);
}

#[test]
fn upstream_that_points_nowhere_does_not_resolve() {
    let root = tempfile::tempdir().unwrap();
    let (repo, _, _) = clean_repo(root.path());
    let name = repo.head().unwrap().shorthand().unwrap().to_string();
    repo.remote("origin", "https://example.invalid/repo.git")
        .unwrap();
    repo.reference_symbolic(
        &format!("refs/remotes/origin/{}", name),
        "refs/remotes/origin/absent",
        true,
        "test",
    )
    .unwrap();
    let mut config = repo.config().unwrap();
    config
        .set_str(&format!("branch.{}.remote", name), "origin")
        .unwrap();
    config
        .set_str(
            &format!("branch.{}.merge", name),
            &format!("refs/heads/{}", name),
        )
        .unwrap();
    assert_eq!(
        resolve(&repo).unwrap_err(),
        ResolutionError::RefResolutionFailed
    );
    assert!(!has_commits_not_pushed(&repo));
}

#[test]
fn upstream_that_is_configured_but_absent_counts_as_none() {
    let root = tempfile::tempdir().unwrap();
    let (repo, _, _) = clean_repo(root.path());
    let name = repo.head().unwrap().shorthand().unwrap().to_string();
    repo.remote("origin", "https://example.invalid/repo.git")
        .unwrap();
    let mut config = repo.config().unwrap();
    config
        .set_str(&format!("branch.{}.remote", name), "origin")
        .unwrap();
    config
        .set_str(
            &format!("branch.{}.merge", name),
            &format!("refs/heads/{}", name),
        )
        .unwrap();
    assert_eq!(resolve(&repo).unwrap_err(), ResolutionError::NoUpstream);
    assert!(!has_commits_not_pushed(&repo));
}

#[test]
fn a_failed_query_is_an_error_and_no_clean_repository() {
    let root = tempfile::tempdir().unwrap();
    let (repo, _, _) = clean_repo(root.path());
    assert_eq!(
        classify_query(&repo, Err(git2::Error::from_str("broken"))),
        Err(ClassifyError::StatusQueryFailed(git2::Error::from_str(
            "broken"
        )))
    );
}

#[test]
fn an_answered_query_is_classified_from_its_list() {
    let root = tempfile::tempdir().unwrap();
    let (repo, _, _) = clean_repo(root.path());
    stage_new_file(&repo, root.path(), "added.txt");
    let mut options = git2::StatusOptions::new();
    options.include_untracked(true);
    assert_eq!(
        classify_query(&repo, repo.statuses(Some(&mut options))),
        Ok(GitStatus::Staged)
    );
    let mut options = git2::StatusOptions::new();
    options.show(git2::StatusShow::Workdir);
    options.include_untracked(false);
    assert_eq!(
        classify_query(&repo, repo.statuses(Some(&mut options))),
        Ok(GitStatus::NoChanges)
    );
}

#[test]
fn entries_in_reads_every_entry_in_order() {
    let root = tempfile::tempdir().unwrap();
    let (repo, _, mut file) = clean_repo(root.path());
    put_file(root.path(), "a_loose.txt", b"loose\n");
    stage_new_file(&repo, root.path(), "b_added.txt");
    file.write_all(b"changed\n").unwrap();
    file.flush().unwrap();
    let mut options = git2::StatusOptions::new();
    options.include_untracked(true);
    let statuses = repo.statuses(Some(&mut options)).unwrap();
    assert_eq!(
        entries_in(&statuses),
        vec![
            StatusFlags::from_bits(WT_NEW),
            StatusFlags::from_bits(INDEX_NEW),
            StatusFlags::from_bits(WT_MODIFIED),
        ]
    );
    assert!(divergence_asked(&statuses));
    assert_eq!(classify_list(&statuses, false), GitStatus::Staged);
    assert_eq!(classify_list(&statuses, true), GitStatus::UnpushedCommits);
}

#[test]
fn divergence_is_not_asked_where_the_first_entry_decides() {
    let root = tempfile::tempdir().unwrap();
    let (repo, _, _) = clean_repo(root.path());
    let mut options = git2::StatusOptions::new();
    options.include_untracked(true);
    let statuses = repo.statuses(Some(&mut options)).unwrap();
    assert_eq!(entries_in(&statuses), Vec::<StatusFlags>::new());
    assert!(!divergence_asked(&statuses));
    assert_eq!(classify_list(&statuses, true), GitStatus::NoChanges);
    drop(statuses);
    stage_new_file(&repo, root.path(), "added.txt");
    put_file(root.path(), "zz_loose.txt", b"loose\n");
    let statuses = repo.statuses(Some(&mut options)).unwrap();
    assert_eq!(statuses.len(), 2);
    assert!(!divergence_asked(&statuses));
    assert_eq!(classify_list(&statuses, true), GitStatus::Staged);
}

#[test]
fn untracked_files_in_untracked_directories_are_searched() {
    let root = tempfile::tempdir().unwrap();
    let repo = ahead_repo(root.path());
    let inner = subdir(root.path(), "inner");
    put_file(&inner, "deep.txt", b"deep\n");
    assert_eq!(check_status(repo), Ok(GitStatus::UnpushedCommits));
}

#[test]
fn a_repository_and_its_path_are_what_is_checked() {
    let root = tempfile::tempdir().unwrap();
    clean_repo(root.path());
    let opened = Repository::open(root.path());
    match subject_of(opened, Some(String::from("/r/a"))) {
        Some((repository, path)) => {
            assert_eq!(path, "/r/a");
            assert_eq!(repository.path(), Repository::open(root.path()).unwrap().path());
        }
        None => panic!("nothing to check"),
    }
    assert!(subject_of(Repository::open(root.path()), None).is_none());
    let absent = Repository::open(root.path().join("absent"));
    assert!(subject_of(absent, Some(String::from("/r/a"))).is_none());
    let absent = Repository::open(root.path().join("absent"));
    assert!(subject_of(absent, None).is_none());
}

#[test]
fn directory_marks_ask_each_entry() {
    let root = tempfile::tempdir().unwrap();
    let one = subdir(root.path(), "one");
    put_file(root.path(), "file.txt", b"x");
    let entries = vec![
        root.path().join("file.txt"),
        one,
        root.path().join("absent"),
    ];
    assert_eq!(directory_marks(&entries), vec![false, true, false]);
}
