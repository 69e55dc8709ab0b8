//! URLs, paths and I/O errors that pass through the library unread.

use reqwest::Url;
use std::path::PathBuf;
use vstd::prelude::*;

verus! {

/// `url::Url`: a parsed URL.
#[verifier::external_type_specification]
#[verifier::external_body]
pub struct ExUrl(reqwest::Url);

/// `std::path::PathBuf`: a path of the file system.
#[verifier::external_type_specification]
#[verifier::external_body]
pub struct ExPathBuf(std::path::PathBuf);

/// `std::io::Error`: what went wrong with a file.
#[verifier::external_type_specification]
#[verifier::external_body]
pub struct ExIoError(std::io::Error);

/// The directory of a path, as `Path::parent` gives it.
pub uninterp spec fn path_parent(path: PathBuf) -> Option<PathBuf>;

/// The text of a path, as `Path::display` writes it.
pub uninterp spec fn path_text(path: PathBuf) -> Seq<char>;

/// `Url`'s `clone`: the same URL again.
pub assume_specification[ <reqwest::Url as Clone>::clone ](source: &Url) -> (copy: Url)
    ensures
        copy == *source,
;

/// `PathBuf`'s `clone`: the same path again.
pub assume_specification[ <std::path::PathBuf as Clone>::clone ](path: &PathBuf) -> (copy: PathBuf)
    ensures
        copy == *path,
;

/// `Path::parent`: the path without its last component, a fixed answer for each
/// path.
#[verifier::external_body]
pub(crate) fn parent_of(path: &PathBuf) -> (parent: Option<PathBuf>)
    ensures
        parent == path_parent(*path),
{
    path.parent().map(|dir| dir.to_path_buf())
}

/// `Path::display`: the path as text, a fixed text for each path.
#[verifier::external_body]
pub(crate) fn display_path(path: &PathBuf) -> (text: String)
    ensures
        text@ == path_text(*path),
{
    path.display().to_string()
}

/// `std::io::Error`'s `to_string`. The words come from the operating system and
/// may differ between machines, so nothing is said of them.
#[verifier::external_body]
pub(crate) fn io_error_text(e: &std::io::Error) -> (text: String) {
    e.to_string()
}

} // verus!
