//! The path filter: which candidate paths are kept.
//!
//! Two checks run in order, the cheap one first. A path is kept unless one of
//! them rejects it.

use crate::config::AppConfig;
use crate::config::Scope;
use crate::paths::extension;
use crate::paths::file_name;
use crate::paths::path_extension;
use crate::paths::path_file_name;
use crate::paths::path_text;
use crate::pattern::regex_matches;
use crate::text::contains_text;
use crate::text::lowercased;
use std::path::Path;
use vstd::prelude::*;

verus! {

/// The rule that both checks share: with `invert` unset a path passes where
/// the thing looked for was found, with `invert` set where it was not.
pub open spec fn keeps(found: bool, invert: bool) -> bool {
    found != invert
}

/// The text under which a path's extension is looked up: the extension in
/// lowercase, or the empty text where the path has no extension or the
/// extension is not text.
pub open spec fn extension_key(path: &Path) -> Seq<char> {
    match path_extension(path) {
        Some(ext) => match path_text(ext) {
            Some(text) => lowercased(text),
            None => Seq::empty(),
        },
        None => Seq::empty(),
    }
}

/// The text that a pattern is tested against: the final component or the
/// whole path, or the empty text where that is absent or is not text.
pub open spec fn subject(path: &Path, scope: Scope) -> Seq<char> {
    match scope {
        Scope::Name => match path_file_name(path) {
            Some(name) => match path_text(name) {
                Some(text) => text,
                None => Seq::empty(),
            },
            None => Seq::empty(),
        },
        Scope::Path => match path_text(path) {
            Some(text) => text,
            None => Seq::empty(),
        },
    }
}

/// The extension check. Directories pass it untested; so does every path
/// where no list is configured.
pub open spec fn passes_extensions(path: &Path, config: &AppConfig, is_dir: bool) -> bool {
    is_dir || match config.extension_texts() {
        Some(list) => keeps(list.contains(extension_key(path)), config.extension_inv),
        None => true,
    }
}

/// The pattern check. Every path passes where no pattern is configured.
pub open spec fn passes_pattern(path: &Path, config: &AppConfig) -> bool {
    match config.regex {
        Some(re) => keeps(regex_matches(re, subject(path, config.scope)), config.regex_inv),
        None => true,
    }
}

/// Whether the filter keeps `path`.
pub open spec fn accepts(path: &Path, config: &AppConfig, is_dir: bool) -> bool {
    passes_extensions(path, config, is_dir) && passes_pattern(path, config)
}

/// Computes the text under which the extension of `path` is looked up.
pub fn extension_key_of(path: &Path) -> (key: String)
    ensures
        key@ == extension_key(path),
{
    match extension(path) {
        Some(ext) => match ext.to_str() {
            Some(text) => text.to_lowercase(),
            None => String::new(),
        },
        None => String::new(),
    }
}

/// Selects the text of `path` that a pattern is tested against.
pub fn subject_of<'a>(path: &'a Path, scope: Scope) -> (text: &'a str)
    ensures
        text@ == subject(path, scope),
{
    proof {
        reveal_strlit("");
    }
    let found: Option<&'a str> = match scope {
        Scope::Name => match file_name(path) {
            Some(name) => name.to_str(),
            None => None,
        },
        Scope::Path => path.to_str(),
    };
    match found {
        Some(text) => text,
        None => "",
    }
}

/// Decides whether `path` is kept. The extension check comes first and is
/// skipped for directories; the pattern check runs only where the extension
/// check did not reject.
pub fn should_process(path: &Path, config: &AppConfig, is_dir: bool) -> (keep: bool)
    ensures
        keep == accepts(path, config, is_dir),
{
    if !is_dir {
        if let Some(list) = &config.extensions {
            let key = extension_key_of(path);
            let found = contains_text(list, &key);
            if found == config.extension_inv {
                return false;
            }
        }
    }
    if let Some(re) = &config.regex {
        let found = re.is_match(subject_of(path, config.scope));
        if found == config.regex_inv {
            return false;
        }
    }
    true
}

/// For a directory the extension check does not count: two configurations
/// that agree on the pattern, its inversion and its scope decide alike,
/// whatever their extension lists say, and the decision is that of the pattern
/// check.
pub proof fn directory_ignores_extensions(path: &Path, a: &AppConfig, b: &AppConfig)
    requires
        a.regex == b.regex,
        a.regex_inv == b.regex_inv,
        a.scope == b.scope,
    ensures
        accepts(path, a, true) == accepts(path, b, true),
        accepts(path, a, true) == passes_pattern(path, a),
{
}

/// With a list of extensions to keep, a file passes the extension check
/// exactly where its extension is on the list; with no pattern configured that
/// decides whether it is kept. A file without extension is dropped, unless the
/// list names the empty extension.
pub proof fn whitelist_keeps_listed_only(path: &Path, config: &AppConfig)
    requires
        config.extensions is Some,
        !config.extension_inv,
    ensures
        passes_extensions(path, config, false) == config.extension_texts()->0.contains(
            extension_key(path),
        ),
        accepts(path, config, false) == (config.extension_texts()->0.contains(extension_key(path))
            && passes_pattern(path, config)),
        config.regex is None ==> accepts(path, config, false)
            == config.extension_texts()->0.contains(extension_key(path)),
        path_extension(path) is None && !config.extension_texts()->0.contains(Seq::empty())
            ==> !accepts(path, config, false),
{
}

/// With a list of extensions to drop, a file passes the extension check
/// exactly where its extension is not on the list; with no pattern configured
/// that decides whether it is kept. A file without extension is kept, unless
/// the list names the empty extension or a pattern rejects the file.
pub proof fn blacklist_drops_listed_only(path: &Path, config: &AppConfig)
    requires
        config.extensions is Some,
        config.extension_inv,
    ensures
        passes_extensions(path, config, false) == !config.extension_texts()->0.contains(
            extension_key(path),
        ),
        accepts(path, config, false) == (!config.extension_texts()->0.contains(extension_key(path))
            && passes_pattern(path, config)),
        config.regex is None ==> accepts(path, config, false)
            == !config.extension_texts()->0.contains(extension_key(path)),
        path_extension(path) is None && !config.extension_texts()->0.contains(Seq::empty())
            && config.regex is None ==> accepts(path, config, false),
{
}

/// Inverting a check complements it: for one outcome of the search, exactly
/// one of the two settings of `invert` keeps the path.
pub proof fn inversion_complements(found: bool)
    ensures
        keeps(found, false) != keeps(found, true),
        keeps(found, false) == found,
{
}

/// Two configurations with the same pattern and scope and opposite pattern
/// inversion never agree on the pattern check.
pub proof fn pattern_inversion_complements(path: &Path, a: &AppConfig, b: &AppConfig)
    requires
        a.regex is Some,
        a.regex == b.regex,
        a.scope == b.scope,
        a.regex_inv != b.regex_inv,
    ensures
        passes_pattern(path, a) != passes_pattern(path, b),
{
}

} // verus!
