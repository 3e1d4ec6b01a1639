//! File-system paths, held as text.
//!
//! How a path falls into a directory, a file name and an extension is for
//! the platform's path syntax to say. This module asks the standard
//! library, and gives each answer a name under which contracts can speak
//! of it. On one platform each answer depends on the text of the path
//! alone: the file system is not looked at.

use vstd::prelude::*;

verus! {

/// The extension of the file name of `path`, without the dot, as
/// `std::path::Path::extension` gives it.
pub uninterp spec fn path_extension(path: Seq<char>) -> Option<Seq<char>>;

/// The last component of `path`, as `std::path::Path::file_name` gives it.
pub uninterp spec fn path_file_name(path: Seq<char>) -> Option<Seq<char>>;

/// `path` without its last component, as `std::path::Path::parent` gives it.
pub uninterp spec fn path_parent(path: Seq<char>) -> Option<Seq<char>>;

/// The path of `name` inside `base`, as `std::path::Path::join` gives it.
pub uninterp spec fn path_join(base: Seq<char>, name: Seq<char>) -> Seq<char>;

/// Calls `std::path::Path::extension`. Trusted: the result is the extension
/// that the standard library finds in `path`, and depends on nothing but the
/// text of `path`.
#[verifier::external_body]
pub(crate) fn extension(path: &str) -> (ext: Option<String>)
    ensures
        match ext {
            Some(e) => path_extension(path@) == Some(e@),
            None => path_extension(path@) is None,
        },
{
    match std::path::Path::new(path).extension() {
        Some(ext) => Some(ext.to_string_lossy().into_owned()),
        None => None,
    }
}

/// Calls `std::path::Path::file_name`. Trusted: the result is the last
/// component that the standard library finds in `path`, and depends on
/// nothing but the text of `path`.
#[verifier::external_body]
pub(crate) fn file_name(path: &str) -> (name: Option<String>)
    ensures
        match name {
            Some(n) => path_file_name(path@) == Some(n@),
            None => path_file_name(path@) is None,
        },
{
    match std::path::Path::new(path).file_name() {
        Some(name) => Some(name.to_string_lossy().into_owned()),
        None => None,
    }
}

/// Calls `std::path::Path::parent`. Trusted: the result is the parent that
/// the standard library finds for `path`, and depends on nothing but the
/// text of `path`.
#[verifier::external_body]
pub(crate) fn parent(path: &str) -> (dir: Option<String>)
    ensures
        match dir {
            Some(d) => path_parent(path@) == Some(d@),
            None => path_parent(path@) is None,
        },
{
    match std::path::Path::new(path).parent() {
        Some(dir) => Some(dir.to_string_lossy().into_owned()),
        None => None,
    }
}

/// Calls `std::path::Path::join`. Trusted: the result is the path that the
/// standard library builds from `base` and `name`, and depends on nothing
/// but the two texts.
#[verifier::external_body]
pub(crate) fn join(base: &str, name: &str) -> (joined: String)
    ensures
        joined@ == path_join(base@, name@),
{
    std::path::Path::new(base).join(name).to_string_lossy().into_owned()
}

/// Whether `extension` is there and reads `wanted`, letter for letter.
pub fn extension_is(extension: &Option<String>, wanted: &str) -> (b: bool)
    ensures
        b == (extension matches Some(e) && e@ == wanted@),
{
    match extension {
        Some(e) => *e == wanted.to_owned(),
        None => false,
    }
}

/// Whether `path` carries the extension `wanted`. Upper and lower case
/// differ, and a path without an extension carries none.
pub fn has_extension(path: &str, wanted: &str) -> (b: bool)
    ensures
        b == (path_extension(path@) == Some(wanted@)),
{
    let ext = extension(path);
    extension_is(&ext, wanted)
}

} // verus!
