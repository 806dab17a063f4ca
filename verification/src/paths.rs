//! The file system paths the library carries, and what it reads of them.

use std::path::PathBuf;
use vstd::prelude::*;

verus! {

/// [`std::path::PathBuf`], carried as an opaque value: two are one and the same
/// where they hold the same path, letter for letter.
#[verifier::external_type_specification]
#[verifier::external_body]
pub struct ExPathBuf(PathBuf);

/// What [`std::path::Path::to_str`] yields: the path as text, or nothing where
/// it is not valid Unicode.
pub uninterp spec fn path_text(path: PathBuf) -> Option<Seq<char>>;

/// What `==` of [`std::path::PathBuf`] answers, which goes by the components of
/// the two paths.
pub uninterp spec fn same_path(path: PathBuf, other: PathBuf) -> bool;

/// What [`std::path::Path::join`] yields.
pub uninterp spec fn joined(dir: PathBuf, name: Seq<char>) -> PathBuf;

/// [`std::path::PathBuf`]'s `clone` hands back the same path.
pub assume_specification[ <PathBuf as Clone>::clone ](path: &PathBuf) -> (copy: PathBuf)
    ensures
        copy == *path,
;

/// [`std::path::PathBuf`]'s `==` depends on the two paths alone, not on which
/// of them comes first, and a path equals itself.
pub assume_specification[ <PathBuf as PartialEq>::eq ](path: &PathBuf, other: &PathBuf) -> (same:
    bool)
    ensures
        same == same_path(*path, *other),
        same == same_path(*other, *path),
        *path == *other ==> same,
;

/// [`std::path::Path::to_str`]: the path as text, where it is valid Unicode.
#[verifier::external_body]
pub(crate) fn text_of(path: &PathBuf) -> (text: Option<&str>)
    ensures
        match text {
            Some(text) => path_text(*path) == Some(text@),
            None => path_text(*path) is None,
        },
{
    path.to_str()
}

/// `PathBuf::from` of a string: the one path whose text is that string.
#[verifier::external_body]
pub(crate) fn path_of(text: &str) -> (path: PathBuf)
    ensures
        path_text(path) == Some(text@),
        forall|other: PathBuf| #[trigger] path_text(other) == Some(text@) ==> other == path,
{
    PathBuf::from(text)
}

/// [`std::path::Path::join`] depends on the directory and the name alone.
#[verifier::external_body]
pub(crate) fn join(dir: &PathBuf, name: &str) -> (path: PathBuf)
    ensures
        path == joined(*dir, name@),
{
    dir.join(name)
}

} // verus!
