use collect::should_process;
use collect::AppConfig;
use collect::Cli;
use collect::Scope;
use std::path::Path;
use std::path::PathBuf;

fn filter_settings() -> Cli {
    Cli {
        path: PathBuf::from("."),
        content: false,
        extension: None,
        no_extension: None,
        regex: None,
        scope: Scope::Name,
        regex_inv: false,
        pattern: None,
        metadata: None,
        depth: None,
        exclude: None,
        no_default_excludes: false,
        follow_symlinks: false,
        include_hidden: false,
        output: None,
        max_bytes: None,
        absolute: false,
        quiet: false,
        guide: false,
    }
}

fn keeping(extensions: &[&str]) -> AppConfig {
    let mut cli = filter_settings();
    cli.extension = Some(extensions.iter().map(|s| s.to_string()).collect());
    AppConfig::from_cli(cli).unwrap()
}

fn dropping(extensions: &[&str]) -> AppConfig {
    let mut cli = filter_settings();
    cli.no_extension = Some(extensions.iter().map(|s| s.to_string()).collect());
    AppConfig::from_cli(cli).unwrap()
}

fn matching(pattern: &str, scope: Scope, invert: bool) -> AppConfig {
    let mut cli = filter_settings();
    cli.regex = Some(pattern.to_string());
    cli.scope = scope;
    cli.regex_inv = invert;
    AppConfig::from_cli(cli).unwrap()
}

#[test]
fn no_filter_keeps_everything() {
    let config = AppConfig::from_cli(filter_settings()).unwrap();
    assert!(should_process(Path::new("a.rs"), &config, false));
    assert!(should_process(Path::new("dir/noext"), &config, false));
    assert!(should_process(Path::new("dir"), &config, true));
    assert!(should_process(Path::new(""), &config, false));
}

#[test]
fn whitelist_keeps_listed_extensions() {
    let config = keeping(&["a", "b"]);
    assert!(should_process(Path::new("x.a"), &config, false));
    assert!(should_process(Path::new("dir/y.b"), &config, false));
}

#[test]
fn whitelist_drops_other_extensions() {
    let config = keeping(&["a", "b"]);
    assert!(!should_process(Path::new("x.c"), &config, false));
    assert!(!should_process(Path::new("x.ab"), &config, false));
    assert!(!should_process(Path::new("a.b.c"), &config, false));
}

#[test]
fn whitelist_drops_files_without_extension() {
    let config = keeping(&["a", "b"]);
    assert!(!should_process(Path::new("a"), &config, false));
    assert!(!should_process(Path::new("dir.a/b"), &config, false));
    assert!(!should_process(Path::new(".a"), &config, false));
    assert!(!should_process(Path::new("x.a/.."), &config, false));
}

#[test]
fn whitelist_with_empty_entry_keeps_files_without_extension() {
    let config = keeping(&["a", ""]);
    assert!(should_process(Path::new("Makefile"), &config, false));
    assert!(should_process(Path::new("x.a"), &config, false));
    assert!(!should_process(Path::new("x.b"), &config, false));
}

#[test]
fn blacklist_drops_listed_extensions() {
    let config = dropping(&["a", "b"]);
    assert!(!should_process(Path::new("x.a"), &config, false));
    assert!(!should_process(Path::new("dir/y.b"), &config, false));
}

#[test]
fn blacklist_keeps_other_extensions_and_none() {
    let config = dropping(&["a", "b"]);
    assert!(should_process(Path::new("x.c"), &config, false));
    assert!(should_process(Path::new("Makefile"), &config, false));
    assert!(should_process(Path::new(".a"), &config, false));
}

#[test]
fn extension_is_compared_in_lowercase() {
    let config = keeping(&["RS"]);
    assert!(should_process(Path::new("main.rs"), &config, false));
    assert!(should_process(Path::new("MAIN.RS"), &config, false));
    assert!(should_process(Path::new("Main.Rs"), &config, false));
    let dropped = dropping(&["rs"]);
    assert!(!should_process(Path::new("MAIN.RS"), &dropped, false));
}

#[test]
fn extension_is_what_follows_the_last_dot() {
    let config = keeping(&["gz"]);
    assert!(should_process(Path::new("a.tar.gz"), &config, false));
    let tar = keeping(&["tar.gz"]);
    assert!(!should_process(Path::new("a.tar.gz"), &tar, false));
}

#[test]
fn extension_is_read_from_the_final_component() {
    let config = keeping(&["rs"]);
    assert!(!should_process(Path::new("src.rs/main"), &config, false));
    assert!(should_process(Path::new("src.d/main.rs"), &config, false));
}

#[test]
fn directory_skips_the_extension_check() {
    let keep = keeping(&["rs"]);
    let drop = dropping(&["d"]);
    assert!(should_process(Path::new("src"), &keep, true));
    assert!(should_process(Path::new("conf.d"), &keep, true));
    assert!(should_process(Path::new("conf.d"), &drop, true));
    assert!(!should_process(Path::new("conf.d"), &drop, false));
    assert!(!should_process(Path::new("src"), &keep, false));
}

#[test]
fn directory_is_still_tested_against_the_pattern() {
    let mut cli = filter_settings();
    cli.extension = Some(vec!["rs".to_string()]);
    cli.regex = Some("^src$".to_string());
    let config = AppConfig::from_cli(cli).unwrap();
    assert!(should_process(Path::new("src"), &config, true));
    assert!(!should_process(Path::new("lib"), &config, true));
}

#[test]
fn pattern_tests_the_final_component_by_default() {
    let config = matching(r"^a\.rs$", Scope::Name, false);
    assert!(should_process(Path::new("a.rs"), &config, false));
    assert!(should_process(Path::new("dir/sub/a.rs"), &config, false));
    assert!(!should_process(Path::new("a.rs/b.rs"), &config, false));
}

#[test]
fn pattern_tests_the_whole_path_in_path_scope() {
    let config = matching(r"^dir/sub/a\.rs$", Scope::Path, false);
    assert!(should_process(Path::new("dir/sub/a.rs"), &config, false));
    assert!(!should_process(Path::new("a.rs"), &config, false));
    let name = matching(r"^dir/sub/a\.rs$", Scope::Name, false);
    assert!(!should_process(Path::new("dir/sub/a.rs"), &name, false));
}

#[test]
fn pattern_matches_anywhere_in_the_text() {
    let config = matching("Test", Scope::Name, false);
    assert!(should_process(Path::new("MyTestFile.txt"), &config, false));
    assert!(!should_process(Path::new("mytestfile.txt"), &config, false));
}

#[test]
fn inverted_pattern_is_the_complement() {
    let plain = matching(r"\.rs$", Scope::Name, false);
    let inverted = matching(r"\.rs$", Scope::Name, true);
    for name in ["a.rs", "b.py", "dir/c.rs", "noext", ".rs", "x.rs.bak"] {
        let path = Path::new(name);
        assert_ne!(should_process(path, &plain, false), should_process(path, &inverted, false));
    }
    assert!(should_process(Path::new("a.rs"), &plain, false));
    assert!(!should_process(Path::new("a.rs"), &inverted, false));
    assert!(!should_process(Path::new("b.py"), &plain, false));
    assert!(should_process(Path::new("b.py"), &inverted, false));
}

#[test]
fn path_without_final_component_is_tested_as_empty_text() {
    let empty = matching("^$", Scope::Name, false);
    assert!(should_process(Path::new("dir/.."), &empty, false));
    assert!(should_process(Path::new("/"), &empty, false));
    assert!(!should_process(Path::new("dir/a"), &empty, false));
    let some = matching(".", Scope::Name, false);
    assert!(!should_process(Path::new("dir/.."), &some, false));
}

#[test]
fn both_checks_must_pass() {
    let mut cli = filter_settings();
    cli.extension = Some(vec!["rs".to_string()]);
    cli.regex = Some("^main".to_string());
    let config = AppConfig::from_cli(cli).unwrap();
    assert!(should_process(Path::new("src/main.rs"), &config, false));
    assert!(!should_process(Path::new("src/lib.rs"), &config, false));
    assert!(!should_process(Path::new("src/main.py"), &config, false));
    assert!(!should_process(Path::new("src/lib.py"), &config, false));
}

#[test]
fn blacklist_and_inverted_pattern_combine() {
    let mut cli = filter_settings();
    cli.no_extension = Some(vec!["log".to_string()]);
    cli.regex = Some("^tmp".to_string());
    cli.regex_inv = true;
    let config = AppConfig::from_cli(cli).unwrap();
    assert!(should_process(Path::new("a.txt"), &config, false));
    assert!(!should_process(Path::new("a.log"), &config, false));
    assert!(!should_process(Path::new("tmp.txt"), &config, false));
}

#[test]
fn key_and_subject_of_a_path() {
    assert_eq!(collect::filter::extension_key_of(Path::new("dir/Photo.JPG")), "jpg");
    assert_eq!(collect::filter::extension_key_of(Path::new("dir/noext")), "");
    assert_eq!(collect::filter::extension_key_of(Path::new(".hidden")), "");
    assert_eq!(collect::filter::extension_key_of(Path::new("a.")), "");
    assert_eq!(collect::filter::subject_of(Path::new("dir/Photo.JPG"), Scope::Name), "Photo.JPG");
    assert_eq!(collect::filter::subject_of(Path::new("dir/Photo.JPG"), Scope::Path), "dir/Photo.JPG");
    assert_eq!(collect::filter::subject_of(Path::new(".."), Scope::Name), "");
    assert_eq!(collect::filter::subject_of(Path::new("dir/"), Scope::Name), "dir");
}

#[test]
fn list_lookup_is_exact() {
    let list = vec!["rs".to_string(), "toml".to_string()];
    assert!(collect::text::contains_text(&list, &"rs".to_string()));
    assert!(collect::text::contains_text(&list, &"toml".to_string()));
    assert!(!collect::text::contains_text(&list, &"r".to_string()));
    assert!(!collect::text::contains_text(&list, &"".to_string()));
    assert!(!collect::text::contains_text(&Vec::new(), &"rs".to_string()));
}

#[test]
fn one_extension_is_normalised() {
    assert_eq!(collect::text::normalize_extension("  ..Rs "), "rs");
    assert_eq!(collect::text::normalize_extension("rs"), "rs");
    assert_eq!(collect::text::normalize_extension(""), "");
    assert_eq!(collect::text::normalize_extension(". x"), " x");
    assert_eq!(collect::text::normalize_extension("ÄÖ"), "äö");
}
