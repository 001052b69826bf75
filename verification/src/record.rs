//! The record writer: the header of one record.
//!
//! A record is one line with the displayed path or, where content is asked
//! for, a header line around the displayed path followed by a content block.

use crate::config::AppConfig;
use crate::paths::path_shown;
use crate::paths::path_without_prefix;
use crate::paths::shown;
use crate::paths::strip_prefix;
use std::path::Path;
use vstd::prelude::*;
use vstd::string::StringSliceAdditionalSpecFns;
use vstd::utf8::encode_utf8;

verus! {

/// How a record begins.
pub struct RecordStart {
    /// The header line, with its line feed.
    pub header: Vec<u8>,
    /// Whether a content block follows the header.
    pub with_content: bool,
}

/// The path that a record shows for `path`. With absolute output it is the
/// resolved path, or `path` itself where resolving failed. Otherwise it is
/// `path` relative to the base path, or `path` itself where the base path is
/// not a prefix of it.
pub open spec fn displayed<'a>(
    path: &'a Path,
    resolved: Option<&'a Path>,
    config: &AppConfig,
) -> &'a Path {
    if config.absolute_path {
        match resolved {
            Some(absolute) => absolute,
            None => path,
        }
    } else {
        match path_without_prefix(path, config.base_path) {
            Some(relative) => relative,
            None => path,
        }
    }
}

/// The header line for a displayed path: the bare path, or the path between
/// `=== ` and ` ===` where a content block follows.
pub open spec fn header_bytes(shown: Seq<char>, with_content: bool) -> Seq<u8> {
    if with_content {
        "=== ".spec_bytes() + encode_utf8(shown) + " ===\n".spec_bytes()
    } else {
        encode_utf8(shown) + "\n".spec_bytes()
    }
}

/// Picks the path that the record shows. `resolved` is the canonical
/// absolute form of `path` where the caller asked the file system for it and
/// got one; it is only read with absolute output.
pub fn displayed_path<'a>(path: &'a Path, resolved: Option<&'a Path>, config: &AppConfig) -> (out:
    &'a Path)
    ensures
        out == displayed(path, resolved, config),
{
    if config.absolute_path {
        match resolved {
            Some(absolute) => absolute,
            None => path,
        }
    } else {
        match strip_prefix(path, &config.base_path) {
            Some(relative) => relative,
            None => path,
        }
    }
}

/// Begins the record of one file: renders its header line and says whether
/// a content block follows.
pub fn process_file(path: &Path, resolved: Option<&Path>, config: &AppConfig) -> (start:
    RecordStart)
    ensures
        start.header@ == header_bytes(
            path_shown(displayed(path, resolved, config)),
            config.read_content,
        ),
        start.with_content == config.read_content,
{
    let text = shown(displayed_path(path, resolved, config));
    let mut header: Vec<u8> = Vec::new();
    if config.read_content {
        header.extend_from_slice("=== ".as_bytes());
        header.extend_from_slice(text.as_str().as_bytes());
        header.extend_from_slice(" ===\n".as_bytes());
    } else {
        header.extend_from_slice(text.as_str().as_bytes());
        header.extend_from_slice("\n".as_bytes());
    }
    assert(header@ =~= header_bytes(text@, config.read_content));
    RecordStart { header, with_content: config.read_content }
}

} // verus!
