//! Paths, held as text.
//!
//! Taking a path apart and putting one together is left to `std::path` and
//! `sugar_path`. What they return depends on the path alone, so each result
//! has a name that contracts can speak of; the rules of the target's path
//! syntax are not restated here.

use std::path::Path;
use sugar_path::SugarPath;
use vstd::prelude::*;

verus! {

/// The directory that holds `path`, as `Path::parent` gives it; `None` for
/// a path that ends in a root and for the empty path.
pub uninterp spec fn path_parent(path: Seq<char>) -> Option<Seq<char>>;

/// `path` adjoined to `base`, as `Path::join` gives it.
pub uninterp spec fn path_joined(base: Seq<char>, path: Seq<char>) -> Seq<char>;

/// `path` with its `.` and `..` segments resolved, as `SugarPath::normalize`
/// gives it.
pub uninterp spec fn path_normalized(path: Seq<char>) -> Seq<char>;

/// The extension of the file that `path` names, without its dot, as
/// `Path::extension` gives it.
pub uninterp spec fn path_extension(path: Seq<char>) -> Option<Seq<char>>;

/// The name of the file that `path` names, without its directories, as
/// `Path::file_name` gives it.
pub uninterp spec fn path_file_name(path: Seq<char>) -> Option<Seq<char>>;

/// `Path::parent`: the result is the parent that `path_parent` names.
#[verifier::external_body]
pub(crate) fn parent_of(path: &str) -> (parent: Option<String>)
    ensures
        parent.deep_view() == path_parent(path@),
{
    Path::new(path).parent().map(|p| p.to_string_lossy().into_owned())
}

/// `Path::join`: the result is the path that `path_joined` names.
#[verifier::external_body]
pub(crate) fn join(base: &str, path: &str) -> (joined: String)
    ensures
        joined@ == path_joined(base@, path@),
{
    Path::new(base).join(path).to_string_lossy().into_owned()
}

/// `SugarPath::normalize`: the result is the path that `path_normalized`
/// names.
#[verifier::external_body]
pub(crate) fn normalize(path: &str) -> (normal: String)
    ensures
        normal@ == path_normalized(path@),
{
    Path::new(path).normalize().to_string_lossy().into_owned()
}

/// `Path::extension`: the result is the extension that `path_extension`
/// names.
#[verifier::external_body]
pub(crate) fn extension_of(path: &str) -> (extension: Option<String>)
    ensures
        extension.deep_view() == path_extension(path@),
{
    Path::new(path).extension().map(|e| e.to_string_lossy().into_owned())
}

/// `Path::file_name`: the result is the name that `path_file_name` names.
#[verifier::external_body]
pub(crate) fn file_name_of(path: &str) -> (name: Option<String>)
    ensures
        name.deep_view() == path_file_name(path@),
{
    Path::new(path).file_name().map(|n| n.to_string_lossy().into_owned())
}

/// A specifier is path-like when it starts with `.` or `/`: it then names a
/// file by its place, not a package by its name.
pub open spec fn is_path_like(specifier: Seq<char>) -> bool {
    specifier.len() > 0 && (specifier[0] == '.' || specifier[0] == '/')
}

/// Whether a specifier is path-like.
pub fn path_like(specifier: &str) -> (like: bool)
    ensures
        like == is_path_like(specifier@),
{
    if specifier.is_empty() {
        false
    } else {
        let first = specifier.get_char(0);
        first == '.' || first == '/'
    }
}

} // verus!
