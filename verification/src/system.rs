//! What the library takes on trust: the path type of the standard library
//! and the `path_absolutize` crate, each call behind one function. Paths are
//! read as Unix paths, with `/` between components.

use crate::error::OsFailure;
use path_absolutize::Absolutize;
use vstd::prelude::*;

verus! {

/// The final component of a path as `std::path::Path::file_name` tells it,
/// or `None` where the path has none (it ends in `..`, or is a root).
pub uninterp spec fn file_name_of(path: Seq<char>) -> Option<Seq<char>>;

/// The final component of a path without its extension, as
/// `std::path::Path::file_stem` tells it.
pub uninterp spec fn file_stem_of(path: Seq<char>) -> Option<Seq<char>>;

/// A path without its final component, as `std::path::Path::parent` tells
/// it, or `None` where the path is a root or empty.
pub uninterp spec fn parent_of(path: Seq<char>) -> Option<Seq<char>>;

/// The absolute form of `path` as `path_absolutize` computes it from the
/// text alone: a relative path is taken from the directory `cwd`, and `.`
/// and `..` components are resolved without looking at any file.
pub uninterp spec fn lexical_absolute(path: Seq<char>, cwd: Seq<char>) -> Seq<char>;

/// Calls `std::path::Path::file_name`. Trusted: the result is the function
/// [`file_name_of`] of the path's text. A component of a path given as text
/// is text again, so nothing is lost in handing it back as a `String`.
#[verifier::external_body]
pub(crate) fn file_name(path: &str) -> (name: Option<String>)
    ensures
        match name {
            Some(text) => file_name_of(path@) == Some(text@),
            None => file_name_of(path@) is None,
        },
{
    match std::path::Path::new(path).file_name() {
        Some(name) => Some(name.to_string_lossy().into_owned()),
        None => None,
    }
}

/// Calls `std::path::Path::file_stem`. Trusted: the result is the function
/// [`file_stem_of`] of the path's text.
#[verifier::external_body]
pub(crate) fn file_stem(path: &str) -> (stem: Option<String>)
    ensures
        match stem {
            Some(text) => file_stem_of(path@) == Some(text@),
            None => file_stem_of(path@) is None,
        },
{
    match std::path::Path::new(path).file_stem() {
        Some(stem) => Some(stem.to_string_lossy().into_owned()),
        None => None,
    }
}

/// Calls `std::path::Path::parent`. Trusted: the result is the function
/// [`parent_of`] of the path's text.
#[verifier::external_body]
pub(crate) fn parent(path: &str) -> (parent: Option<String>)
    ensures
        match parent {
            Some(text) => parent_of(path@) == Some(text@),
            None => parent_of(path@) is None,
        },
{
    match std::path::Path::new(path).parent() {
        Some(parent) => Some(parent.to_string_lossy().into_owned()),
        None => None,
    }
}

/// Calls `std::path::Path::exists`, which asks the file system and follows
/// symbolic links. Nothing is known of the answer.
#[verifier::external_body]
pub(crate) fn path_exists(path: &str) -> (found: bool) {
    std::path::Path::new(path).exists()
}

/// Calls `std::path::Path::is_file`, which asks the file system and follows
/// symbolic links. Nothing is known of the answer.
#[verifier::external_body]
pub(crate) fn is_file(path: &str) -> (regular: bool) {
    std::path::Path::new(path).is_file()
}

/// Calls `std::path::Path::is_dir`, which asks the file system and follows
/// symbolic links. Nothing is known of the answer.
#[verifier::external_body]
pub(crate) fn is_dir(path: &str) -> (directory: bool) {
    std::path::Path::new(path).is_dir()
}

/// Calls `std::path::Path::is_symlink`, which asks the file system about
/// the path itself. Nothing is known of the answer.
#[verifier::external_body]
pub(crate) fn is_symlink(path: &str) -> (link: bool) {
    std::path::Path::new(path).is_symlink()
}

/// Calls `std::path::Path::canonicalize`, which resolves the path on the
/// file system. Trusted: a path that it hands back is absolute, as its
/// documentation says. Nothing else is known of the outcome. A failure
/// comes back by its kind, and a resolved path that is not text as a
/// failure of its own.
#[verifier::external_body]
pub(crate) fn canonicalize(path: &str) -> (resolved: Result<String, OsFailure>)
    ensures
        resolved matches Ok(text) ==> text@.len() > 0,
        resolved matches Ok(text) ==> text@[0] == '/',
{
    match std::path::Path::new(path).canonicalize() {
        Ok(canonical) => match canonical.to_str() {
            Some(text) => Ok(text.to_owned()),
            None => Err(OsFailure::Other("the real path is not valid text".to_owned())),
        },
        Err(e) => Err(match e.kind() {
            std::io::ErrorKind::NotFound => OsFailure::NotFound,
            std::io::ErrorKind::NotADirectory => OsFailure::NotADirectory,
            std::io::ErrorKind::PermissionDenied => OsFailure::PermissionDenied,
            _ => OsFailure::Other(e.to_string()),
        }),
    }
}

/// Calls `path_absolutize::Absolutize::absolutize_from` on a path, with the
/// directory from which a relative path is taken. Trusted: the result is
/// the function [`lexical_absolute`] of the two texts; with an absolute
/// `cwd` the call reports no failure and its result begins with `/`, since
/// it is either the given path, begun by its root, or built up from the
/// root of `cwd`. A `cwd` that is not absolute is left out: on some of them
/// the call does not return.
#[verifier::external_body]
pub(crate) fn absolutize_from(path: &str, cwd: &str) -> (absolute: Option<String>)
    requires
        cwd@.len() > 0,
        cwd@[0] == '/',
    ensures
        absolute is Some,
        absolute.unwrap()@ == lexical_absolute(path@, cwd@),
        absolute.unwrap()@.len() > 0,
        absolute.unwrap()@[0] == '/',
{
    match std::path::Path::new(path).absolutize_from(cwd) {
        Ok(absolute) => Some(absolute.to_string_lossy().into_owned()),
        Err(_) => None,
    }
}

} // verus!
