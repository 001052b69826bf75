//! Settings: what the user asked for, and the configuration built from it.

use crate::pattern::regex_compiled;
use crate::text::normalize_extensions;
use crate::text::normalized_extensions;
use crate::text::texts;
use regex::Regex;
use std::path::PathBuf;
use vstd::prelude::*;
use vstd::string::StringExecFns;

verus! {

/// The text that a pattern is tested against.
#[derive(Copy, Clone, PartialEq, Eq, Debug, Structural)]
pub enum Scope {
    /// The final component of the path.
    Name,
    /// The whole path.
    Path,
}

/// The settings as the user gave them, one field per command-line option.
pub struct Cli {
    /// Directory at which the search starts.
    pub path: PathBuf,
    /// Whether each record carries the file's content.
    pub content: bool,
    /// Extensions to keep; every other extension is dropped.
    pub extension: Option<Vec<String>>,
    /// Extensions to drop; every other extension is kept.
    pub no_extension: Option<Vec<String>>,
    /// Pattern that a path is tested against.
    pub regex: Option<String>,
    /// Which text of the path the pattern is tested against.
    pub scope: Scope,
    /// Whether the pattern drops what it matches.
    pub regex_inv: bool,
    /// Reserved; has no effect.
    pub pattern: Option<String>,
    /// Reserved; has no effect.
    pub metadata: Option<String>,
    /// Greatest depth below the start directory.
    pub depth: Option<usize>,
    /// Further glob patterns of entries to leave out.
    pub exclude: Option<Vec<String>>,
    /// Whether the traversal's standard filters are switched off.
    pub no_default_excludes: bool,
    /// Whether symbolic links are followed.
    pub follow_symlinks: bool,
    /// Whether hidden entries are visited.
    pub include_hidden: bool,
    /// File that receives the records in place of standard output.
    pub output: Option<PathBuf>,
    /// Greatest number of content bytes per file.
    pub max_bytes: Option<u64>,
    /// Whether records show canonical absolute paths.
    pub absolute: bool,
    /// Whether diagnostics and the summary are suppressed.
    pub quiet: bool,
    /// Whether the usage guide was asked for.
    pub guide: bool,
}

impl Cli {
    /// The extension list in force, as written: the list to keep where there
    /// is one, else the list to drop.
    pub open spec fn raw_extensions(self) -> Option<Seq<Seq<char>>> {
        match self.extension {
            Some(list) => Some(texts(list@)),
            None => match self.no_extension {
                Some(list) => Some(texts(list@)),
                None => None,
            },
        }
    }

    /// Whether the list in force names extensions to drop.
    pub open spec fn drops_listed(self) -> bool {
        self.extension is None && self.no_extension is Some
    }

    /// What an argument parser guarantees of the two lists: at most one is
    /// given, and a given list names at least one extension.
    pub open spec fn wf(self) -> bool {
        &&& !(self.extension is Some && self.no_extension is Some)
        &&& self.extension matches Some(list) ==> list@.len() > 0
        &&& self.no_extension matches Some(list) ==> list@.len() > 0
    }
}

/// The configuration of a run. Built once, then only read.
pub struct AppConfig {
    /// Normalised extensions that the filter looks for.
    pub extensions: Option<Vec<String>>,
    /// `false`: only listed extensions pass. `true`: listed extensions fail.
    pub extension_inv: bool,
    /// Compiled pattern.
    pub regex: Option<Regex>,
    /// `false`: only matching paths pass. `true`: matching paths fail.
    pub regex_inv: bool,
    /// Which text of the path the pattern is tested against.
    pub scope: Scope,
    /// Directory at which the search starts.
    pub base_path: PathBuf,
    /// Greatest depth below the start directory.
    pub depth: Option<usize>,
    /// Further glob patterns of entries to leave out.
    pub exclude: Option<Vec<String>>,
    /// Whether the traversal's standard filters are switched off.
    pub no_default_excludes: bool,
    /// Whether hidden entries are visited.
    pub include_hidden: bool,
    /// Whether symbolic links are followed.
    pub follow_symlinks: bool,
    /// File that receives the records in place of standard output.
    pub output: Option<PathBuf>,
    /// Whether records show canonical absolute paths.
    pub absolute_path: bool,
    /// Greatest number of content bytes per file.
    pub max_bytes: Option<u64>,
    /// Whether each record carries the file's content.
    pub read_content: bool,
    /// Whether diagnostics and the summary are suppressed.
    pub quiet: bool,
}

/// Why no configuration could be built.
#[derive(Debug)]
pub enum ConfigError {
    /// The pattern did not compile.
    InvalidRegex(regex::Error),
}

impl ConfigError {
    /// A one-line description of the error.
    pub fn message(&self) -> (text: String)
        ensures
            text@ == "Invalid Regex format"@,
    {
        match self {
            ConfigError::InvalidRegex(_) => "Invalid Regex format".to_owned(),
        }
    }
}

/// How the traversal is set up.
pub struct WalkSettings {
    /// Whether the traversal applies its standard filters.
    pub standard_filters: bool,
    /// Whether hidden entries are skipped.
    pub skip_hidden: bool,
    /// Whether symbolic links are followed.
    pub follow_links: bool,
    /// Greatest depth below the start directory.
    pub max_depth: Option<usize>,
    /// Number of threads that walk the tree.
    pub threads: usize,
    /// Override globs, each one excluding what it matches.
    pub overrides: Vec<String>,
}

/// The override glob that excludes what `glob` matches.
pub open spec fn excluding(glob: Seq<char>) -> Seq<char> {
    seq!['!'] + glob
}

/// One excluding override per glob, in the same order.
pub open spec fn excluding_all(globs: Seq<Seq<char>>) -> Seq<Seq<char>> {
    globs.map_values(|g: Seq<char>| excluding(g))
}

impl AppConfig {
    /// The list, if there is one, names at least one extension, and only a
    /// list can be inverted.
    pub open spec fn wf(&self) -> bool {
        &&& self.extension_inv ==> self.extensions is Some
        &&& self.extensions matches Some(list) ==> list@.len() > 0
    }

    /// The texts of the extensions that the filter looks for.
    pub open spec fn extension_texts(&self) -> Option<Seq<Seq<char>>> {
        match self.extensions {
            Some(list) => Some(texts(list@)),
            None => None,
        }
    }

    /// Whether this is the configuration that `cli` asks for.
    pub open spec fn built_from(&self, cli: Cli) -> bool {
        &&& self.extension_texts() == match cli.raw_extensions() {
            Some(list) => Some(normalized_extensions(list)),
            None => None,
        }
        &&& self.extension_inv == cli.drops_listed()
        &&& match cli.regex {
            Some(source) => regex_compiled(source@) == Ok::<Regex, regex::Error>(self.regex->0)
                && self.regex is Some,
            None => self.regex is None,
        }
        &&& self.regex_inv == cli.regex_inv
        &&& self.scope == cli.scope
        &&& self.base_path == cli.path
        &&& self.depth == cli.depth
        &&& self.exclude == cli.exclude
        &&& self.no_default_excludes == cli.no_default_excludes
        &&& self.include_hidden == cli.include_hidden
        &&& self.follow_symlinks == cli.follow_symlinks
        &&& self.output == cli.output
        &&& self.absolute_path == cli.absolute
        &&& self.max_bytes == cli.max_bytes
        &&& self.read_content == cli.content
        &&& self.quiet == cli.quiet
    }

    /// Builds the configuration that `cli` asks for. Fails exactly where a
    /// pattern is given that does not compile, with the compiler's error.
    pub fn from_cli(cli: Cli) -> (r: Result<AppConfig, ConfigError>)
        ensures
            match r {
                Ok(config) => config.built_from(cli) && (cli.wf() ==> config.wf()),
                Err(ConfigError::InvalidRegex(e)) => cli.regex matches Some(source)
                    && regex_compiled(source@) == Err::<Regex, regex::Error>(e),
            },
            r is Err <==> (cli.regex matches Some(source) && regex_compiled(source@) is Err),
    {
        let regex = match &cli.regex {
            Some(source) => match Regex::new(source.as_str()) {
                Ok(re) => Some(re),
                Err(e) => {
                    return Err(ConfigError::InvalidRegex(e));
                },
            },
            None => None,
        };
        let (raw_extensions, extension_inv) = match cli.extension {
            Some(list) => (Some(list), false),
            None => match cli.no_extension {
                Some(list) => (Some(list), true),
                None => (None, false),
            },
        };
        let extensions = match raw_extensions {
            Some(list) => Some(normalize_extensions(list)),
            None => None,
        };
        Ok(
            AppConfig {
                extensions,
                extension_inv,
                regex,
                regex_inv: cli.regex_inv,
                scope: cli.scope,
                base_path: cli.path,
                depth: cli.depth,
                exclude: cli.exclude,
                no_default_excludes: cli.no_default_excludes,
                include_hidden: cli.include_hidden,
                follow_symlinks: cli.follow_symlinks,
                output: cli.output,
                absolute_path: cli.absolute,
                max_bytes: cli.max_bytes,
                read_content: cli.content,
                quiet: cli.quiet,
            },
        )
    }

    /// The set-up of the traversal: standard filters unless switched off,
    /// hidden entries skipped unless asked for, one thread so that entries
    /// come in a fixed order, and one excluding override per exclude glob.
    pub fn walk_settings(&self) -> (settings: WalkSettings)
        ensures
            settings.standard_filters == !self.no_default_excludes,
            settings.skip_hidden == !self.include_hidden,
            settings.follow_links == self.follow_symlinks,
            settings.max_depth == self.depth,
            settings.threads == 1,
            texts(settings.overrides@) == match self.exclude {
                Some(globs) => excluding_all(texts(globs@)),
                None => Seq::<Seq<char>>::empty(),
            },
    {
        let mut overrides: Vec<String> = Vec::new();
        if let Some(globs) = &self.exclude {
            let mut i: usize = 0;
            while i < globs.len()
                invariant
                    i <= globs.len(),
                    overrides.len() == i,
                    forall|k: int|
                        0 <= k < i ==> (#[trigger] overrides@[k])@ == excluding(globs@[k]@),
                decreases globs.len() - i,
            {
                proof {
                    reveal_strlit("!");
                }
                let glob = String::from_str("!").concat(globs[i].as_str());
                assert(glob@ =~= excluding(globs@[i as int]@));
                overrides.push(glob);
                i = i + 1;
            }
            assert(texts(overrides@) =~= excluding_all(texts(globs@)));
        } else {
            assert(texts(overrides@) =~= Seq::<Seq<char>>::empty());
        }
        WalkSettings {
            standard_filters: !self.no_default_excludes,
            skip_hidden: !self.include_hidden,
            follow_links: self.follow_symlinks,
            max_depth: self.depth,
            threads: 1,
            overrides,
        }
    }
}

} // verus!
