//! File-system paths, read through `std::path`.
//!
//! A path is opaque here. What the library needs of one (its extension, its
//! final component, its text, its form relative to a base, the text shown for
//! it) is computed by `std` and named below.

use std::path::Path;
use std::path::PathBuf;
use vstd::prelude::*;

verus! {

/// A borrowed path.
#[verifier::external_type_specification]
#[verifier::external_body]
pub struct ExPath(Path);

/// An owned path.
#[verifier::external_type_specification]
#[verifier::external_body]
pub struct ExPathBuf(PathBuf);

/// The extension of `path` as `Path::extension` extracts it, or `None` where
/// the path has none.
pub uninterp spec fn path_extension(path: &Path) -> Option<&Path>;

/// The final component of `path` as `Path::file_name` gives it, or `None`
/// where the path ends in `..` or has no component.
pub uninterp spec fn path_file_name(path: &Path) -> Option<&Path>;

/// The text of `path` as `Path::to_str` yields it, or `None` where the path is
/// not valid Unicode.
pub uninterp spec fn path_text(path: &Path) -> Option<Seq<char>>;

/// `path` relative to `base` as `Path::strip_prefix` returns it, or `None`
/// where `base` is not a prefix of `path`.
pub uninterp spec fn path_without_prefix(path: &Path, base: PathBuf) -> Option<&Path>;

/// The text that `Path::display` prints for `path`.
pub uninterp spec fn path_shown(path: &Path) -> Seq<char>;

/// `Path::extension`, its result taken as a path again. The extension is a
/// function of the path alone: the value named [`path_extension`].
#[verifier::external_body]
pub(crate) fn extension(path: &Path) -> (r: Option<&Path>)
    ensures
        r == path_extension(path),
{
    path.extension().map(Path::new)
}

/// `Path::file_name`, its result taken as a path again. The final component
/// is a function of the path alone: the value named [`path_file_name`].
#[verifier::external_body]
pub(crate) fn file_name(path: &Path) -> (r: Option<&Path>)
    ensures
        r == path_file_name(path),
{
    path.file_name().map(Path::new)
}

/// `Path::to_str` yields the path's text exactly where the path is valid
/// Unicode: the value named [`path_text`].
pub assume_specification[ std::path::Path::to_str ](path: &std::path::Path) -> (r: Option<&str>)
    ensures
        match r {
            Some(text) => path_text(path) == Some(text@),
            None => path_text(path) is None,
        },
;

/// `Path::strip_prefix`, with `None` for its error. The result is a function
/// of the two paths alone: the value named [`path_without_prefix`].
#[verifier::external_body]
pub(crate) fn strip_prefix<'a>(path: &'a Path, base: &PathBuf) -> (r: Option<&'a Path>)
    ensures
        r == path_without_prefix(path, *base),
{
    path.strip_prefix(base).ok()
}

/// The text that formatting `Path::display` with `{}` produces: the value
/// named [`path_shown`], a function of the path alone.
#[verifier::external_body]
pub(crate) fn shown(path: &Path) -> (r: String)
    ensures
        r@ == path_shown(path),
{
    format!("{}", path.display())
}

} // verus!
