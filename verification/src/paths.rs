//! Paths as text.
//!
//! A path is held as a string and taken apart and put together by the
//! standard library's `Path`, as on Unix. Verus has no specification for
//! `Path`, so each of its methods that this crate uses has a name here for
//! what it returns, and a wrapper that says no more than that the method
//! returns it: the same for the same path.

use vstd::prelude::*;
use crate::text::opt_text;

verus! {

/// The last component of `path`, as `Path::file_name` gives it.
pub uninterp spec fn file_name_of(path: Seq<char>) -> Option<Seq<char>>;

/// `path` without its last component, as `Path::parent` gives it.
pub uninterp spec fn parent_of(path: Seq<char>) -> Option<Seq<char>>;

/// `base` extended by `path`, as `Path::join` gives it.
pub uninterp spec fn joined_path(base: Seq<char>, path: Seq<char>) -> Seq<char>;

/// The extension of the last component of `path`, as `Path::extension`
/// gives it.
pub uninterp spec fn extension_of(path: Seq<char>) -> Option<Seq<char>>;

/// The last component of `path` without its extension, as
/// `Path::file_stem` gives it.
pub uninterp spec fn file_stem_of(path: Seq<char>) -> Option<Seq<char>>;

/// The last component of `path`.
///
/// Calls `Path::file_name`; the contract gives its result the name
/// `file_name_of`.
#[verifier::external_body]
pub(crate) fn file_name(path: &str) -> (name: Option<String>)
    ensures
        opt_text(name) == file_name_of(path@),
{
    std::path::Path::new(path).file_name().map(|name| name.to_string_lossy().into_owned())
}

/// `path` without its last component.
///
/// Calls `Path::parent`; the contract gives its result the name
/// `parent_of`.
#[verifier::external_body]
pub(crate) fn parent(path: &str) -> (dir: Option<String>)
    ensures
        opt_text(dir) == parent_of(path@),
{
    std::path::Path::new(path).parent().map(|dir| dir.to_string_lossy().into_owned())
}

/// `base` extended by `path`.
///
/// Calls `Path::join`; the contract gives its result the name
/// `joined_path`.
#[verifier::external_body]
pub(crate) fn join(base: &str, path: &str) -> (whole: String)
    ensures
        whole@ == joined_path(base@, path@),
{
    std::path::Path::new(base).join(path).to_string_lossy().into_owned()
}

/// The extension of the last component of `path`.
///
/// Calls `Path::extension`; the contract gives its result the name
/// `extension_of`.
#[verifier::external_body]
pub(crate) fn extension(path: &str) -> (ext: Option<String>)
    ensures
        opt_text(ext) == extension_of(path@),
{
    std::path::Path::new(path).extension().map(|ext| ext.to_string_lossy().into_owned())
}

/// The last component of `path` without its extension.
///
/// Calls `Path::file_stem`; the contract gives its result the name
/// `file_stem_of`.
#[verifier::external_body]
pub(crate) fn file_stem(path: &str) -> (stem: Option<String>)
    ensures
        opt_text(stem) == file_stem_of(path@),
{
    std::path::Path::new(path).file_stem().map(|stem| stem.to_string_lossy().into_owned())
}

} // verus!
