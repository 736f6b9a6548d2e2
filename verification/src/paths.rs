//! The filesystem queries of a scan, each behind a small wrapper whose
//! contract is taken on trust.
//!
//! What a directory holds is read from disk, so nothing is claimed of the
//! values that these calls return.

use vstd::prelude::*;
use std::path::PathBuf;

verus! {

/// `std::path::PathBuf`, a path of the filesystem; opaque here, but for its
/// text, which `text_of` names.
#[verifier::external_type_specification]
#[verifier::external_body]
pub struct ExPathBuf(std::path::PathBuf);

/// `std::io::Error`, the error of a failed listing; opaque here.
#[verifier::external_type_specification]
#[verifier::external_body]
pub struct ExIoError(std::io::Error);

/// Why a directory could not be listed.
#[derive(Clone, Copy, Debug, PartialEq, Eq, Structural)]
pub enum ListFailure {
    NotFound,
    PermissionDenied,
    Unreadable,
}

/// The text of a path, where the path is valid UTF-8.
pub uninterp spec fn text_of(path: &PathBuf) -> Option<Seq<char>>;

/// `std::path::PathBuf::from`: the path that a string spells.
/// Nothing is claimed of the path.
#[verifier::external_body]
pub(crate) fn path_from(text: &str) -> (path: PathBuf) {
    PathBuf::from(text)
}

/// `std::path::Path::read_dir`, the iteration over what it returns, and
/// `path` of each entry: one value for each entry that the system lists, in
/// its order, the entry's path where the entry could be read and nothing
/// where it could not. The three stand together because the types between
/// them cannot be named here. Nothing is claimed of the outcome.
#[verifier::external_body]
pub(crate) fn read_dir_entries(path: &PathBuf) -> (res: Result<
    Vec<Option<PathBuf>>,
    std::io::Error,
>) {
    let mut entries = Vec::new();
    for entry in path.read_dir()? {
        entries.push(match entry {
            Ok(entry) => Some(entry.path()),
            Err(_) => None,
        });
    }
    Ok(entries)
}

/// `std::path::Path::is_dir`: whether the path names a directory now.
/// Nothing is claimed of the answer.
#[verifier::external_body]
pub(crate) fn path_is_dir(path: &PathBuf) -> (is_dir: bool) {
    path.is_dir()
}

/// `std::path::Path::to_str`: the path as text, where it is valid UTF-8.
/// The outcome depends on the path alone, and `text_of` is its name.
#[verifier::external_body]
pub(crate) fn path_text(path: &PathBuf) -> (text: Option<String>)
    ensures
        text is Some <==> text_of(path) is Some,
        text matches Some(found) ==> text_of(path) == Some(found@),
{
    path.to_str().map(String::from)
}

/// `std::io::Error::kind`: the kind of an I/O error, as far as a listing
/// tells kinds apart. Nothing is claimed of which kind it is.
#[verifier::external_body]
pub(crate) fn failure_of(error: &std::io::Error) -> (failure: ListFailure) {
    match error.kind() {
        std::io::ErrorKind::NotFound => ListFailure::NotFound,
        std::io::ErrorKind::PermissionDenied => ListFailure::PermissionDenied,
        _ => ListFailure::Unreadable,
    }
}

} // verus!
