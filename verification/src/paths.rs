//! Filesystem paths as the library sees them.
//!
//! A path is carried as a `PathBuf` and never taken apart here. Contracts
//! speak of its text, the bytes it is made of, and of what the standard
//! path operations make of that text. The executable functions in this file
//! are believed, not proved: each wraps one function of `std::path` or of
//! `dirs`.

use std::path::PathBuf;
use vstd::prelude::*;

verus! {

/// Makes `std::path::PathBuf` known as a type whose inside is not looked
/// at.
#[verifier::external_type_specification]
#[verifier::external_body]
pub struct ExPathBuf(PathBuf);

/// The text of a path: the bytes it is made of, in order.
pub uninterp spec fn path_text(path: PathBuf) -> Seq<u8>;

/// The text that `Path::join` gives for a base and a piece adjoined to it.
pub uninterp spec fn joined_text(base: Seq<u8>, piece: Seq<char>) -> Seq<u8>;

/// The text that `Path::with_extension` gives for a path and an extension.
pub uninterp spec fn retyped_text(path: Seq<u8>, extension: Seq<char>) -> Seq<u8>;

/// The text of what `Path::parent` gives: the path without its last
/// component, or nothing where the path ends in a root or is empty.
pub uninterp spec fn parent_text(path: Seq<u8>) -> Option<Seq<u8>>;

/// The characters that `Path::display` prints for a path.
pub uninterp spec fn shown_text(path: Seq<u8>) -> Seq<char>;

/// The text of an optional path.
pub open spec fn opt_path_text(path: Option<PathBuf>) -> Option<Seq<u8>> {
    match path {
        Some(p) => Some(path_text(p)),
        None => None,
    }
}

/// An extension that `Path::with_extension` takes without panicking: it
/// holds no path separator.
pub open spec fn plain_extension(extension: Seq<char>) -> bool {
    forall|i: int| 0 <= i < extension.len() ==> extension[i] != '/' && extension[i] != '\\'
}

/// `PathBuf::clone`: the copy has the text of the path it was made from.
pub assume_specification[ <PathBuf as Clone>::clone ](path: &PathBuf) -> (copy: PathBuf)
    ensures
        path_text(copy) == path_text(*path),
;

/// `Path::join`: the result depends on the base's text and on the piece
/// alone, and is named by `joined_text`.
#[verifier::external_body]
pub(crate) fn join(base: &PathBuf, piece: &str) -> (joined: PathBuf)
    ensures
        path_text(joined) == joined_text(path_text(*base), piece@),
{
    base.join(piece)
}

/// `Path::with_extension`: the result depends on the path's text and on the
/// extension alone, and is named by `retyped_text`. The standard library
/// panics on an extension that holds a separator, so none may be passed.
#[verifier::external_body]
pub(crate) fn with_extension(path: &PathBuf, extension: &str) -> (retyped: PathBuf)
    requires
        plain_extension(extension@),
    ensures
        path_text(retyped) == retyped_text(path_text(*path), extension@),
{
    path.with_extension(extension)
}

/// `Path::parent`: whether there is a parent, and its text, depend on the
/// path's text alone, and are named by `parent_text`.
#[verifier::external_body]
pub(crate) fn parent(path: &PathBuf) -> (dir: Option<PathBuf>)
    ensures
        opt_path_text(dir) == parent_text(path_text(*path)),
{
    match path.parent() {
        Some(dir) => Some(dir.to_path_buf()),
        None => None,
    }
}

/// `Path::as_os_str` on both paths, compared as `OsStr` compares: byte by
/// byte. The result says whether the two paths have the same text.
#[verifier::external_body]
pub(crate) fn same_text(a: &PathBuf, b: &PathBuf) -> (same: bool)
    ensures
        same == (path_text(*a) == path_text(*b)),
{
    a.as_os_str() == b.as_os_str()
}

/// `Path::display`, printed into a `String`: the characters depend on the
/// path's text alone, and are named by `shown_text`.
#[verifier::external_body]
pub(crate) fn display(path: &PathBuf) -> (shown: String)
    ensures
        shown@ == shown_text(path_text(*path)),
{
    format!("{}", path.display())
}

/// `dirs::home_dir`: the home directory of the user the process runs as,
/// where the platform can tell. It depends on the environment, so nothing
/// is claimed of what comes back.
#[verifier::external_body]
pub(crate) fn home_dir() -> (home: Option<PathBuf>) {
    dirs::home_dir()
}

} // verus!
