use extension_store::codec::{manifest_from_json, manifest_to_json};
use extension_store::document::{parse_language_config, parse_theme_names};
use extension_store::manifest::{GrammarManifestEntry, LanguageMatcher, ThemeLocation};
use extension_store::scan::{
    scan_extensions, ExtensionListing, LanguageListing, RebuildError, ThemeFile,
};
use extension_store::order::CanonicalOrder;
use extension_store::store::ExtensionStore;
use extension_store::text::{join_text, file_stem, le_text};

fn s(x: &str) -> String {
    x.to_string()
}

fn path(parts: &[&str]) -> Vec<String> {
    parts.iter().map(|p| p.to_string()).collect()
}

fn language(dir: &str, config: &str) -> LanguageListing {
    LanguageListing { dir_name: s(dir), config: Some(s(config)) }
}

fn theme_file(filename: &str, contents: &str) -> ThemeFile {
    ThemeFile { filename: s(filename), contents: Some(s(contents)) }
}

fn family(names: &[&str]) -> String {
    let themes: Vec<String> = names.iter().map(|n| format!("{{\"name\": \"{}\"}}", n)).collect();
    format!("{{\"name\": \"Family\", \"author\": \"Someone\", \"themes\": [{}]}}", themes.join(", "))
}

fn extension(name: &str) -> ExtensionListing {
    ExtensionListing { name: s(name), grammar_files: None, languages: None, theme_files: None }
}

fn theme_location<'a>(
    themes: &'a [(String, ThemeLocation)],
    name: &str,
) -> Option<&'a ThemeLocation> {
    themes.iter().find(|(n, _)| n == name).map(|(_, l)| l)
}

#[test]
fn grammars_are_sorted_and_stemmed() {
    let mut e = extension("zeta");
    e.grammar_files = Some(vec![s("rust.wasm"), s("c.wasm")]);
    let mut a = extension("alpha");
    a.grammar_files = Some(vec![s("toml.wasm")]);
    let m = scan_extensions(&vec![e, a]).unwrap();
    let names: Vec<(String, String)> =
        m.grammars.iter().map(|g| (g.extension.clone(), g.grammar_name.clone())).collect();
    assert_eq!(
        names,
        vec![(s("alpha"), s("toml")), (s("zeta"), s("c")), (s("zeta"), s("rust"))]
    );
}

#[test]
fn languages_are_read_from_config() {
    let mut e = extension("foo");
    e.languages = Some(vec![language(
        "bar",
        "name = \"Bar\"\npath_suffixes = [\"bar\"]\nfirst_line_pattern = \"^#!bar\"\n",
    )]);
    let m = scan_extensions(&vec![e]).unwrap();
    assert_eq!(m.languages.len(), 1);
    let l = &m.languages[0];
    assert_eq!(l.extension, "foo");
    assert_eq!(l.language_dir, "bar");
    assert_eq!(l.name, "Bar");
    assert_eq!(
        l.matcher,
        LanguageMatcher { path_suffixes: vec![s("bar")], first_line_pattern: Some(s("^#!bar")) }
    );
}

#[test]
fn missing_folders_are_not_errors() {
    let mut only_grammars = extension("g");
    only_grammars.grammar_files = Some(vec![s("x.wasm")]);
    let mut only_themes = extension("t");
    only_themes.theme_files = Some(vec![theme_file("a.json", &family(&["A"]))]);
    let empty = extension("empty");
    let m = scan_extensions(&vec![only_grammars, only_themes, empty]).unwrap();
    assert_eq!(m.grammars.len(), 1);
    assert!(m.languages.is_empty());
    assert_eq!(m.themes_by_name.len(), 1);
}

#[test]
fn malformed_language_config_fails_rebuild() {
    let mut e = extension("foo");
    e.languages = Some(vec![language("ok", "name = \"Ok\""), language("bad", "name = [")]);
    let r = scan_extensions(&vec![e]);
    assert_eq!(r, Err(RebuildError::Deserialize { extension: s("foo"), language_dir: s("bad") }));
}

#[test]
fn config_without_name_fails_rebuild() {
    let mut e = extension("foo");
    e.languages = Some(vec![language("bar", "path_suffixes = [\"bar\"]")]);
    let r = scan_extensions(&vec![e]);
    assert_eq!(r, Err(RebuildError::Deserialize { extension: s("foo"), language_dir: s("bar") }));
}

#[test]
fn unreadable_language_config_fails_rebuild() {
    let mut e = extension("foo");
    e.languages = Some(vec![LanguageListing { dir_name: s("bar"), config: None }]);
    let r = scan_extensions(&vec![e]);
    assert_eq!(r, Err(RebuildError::Io { extension: s("foo"), language_dir: s("bar") }));
}

#[test]
fn failed_rebuild_keeps_previous_manifest() {
    let mut store = ExtensionStore::new(path(&["ext"]), path(&["ext", "index.json"]));
    let mut good = extension("foo");
    good.grammar_files = Some(vec![s("foo.wasm")]);
    let rebuilt = store.rebuild_manifest(&vec![good]).unwrap();
    assert_eq!(store.commit_rebuild(rebuilt, true), Ok(()));
    let before = store.manifest().clone();

    let mut bad = extension("foo");
    bad.languages = Some(vec![language("bar", "not toml at all = = =")]);
    assert!(store.rebuild_manifest(&vec![bad]).is_err());
    assert_eq!(store.manifest(), &before);
}

#[test]
fn unpersisted_rebuild_is_not_swapped_in() {
    let mut store = ExtensionStore::new(path(&["ext"]), path(&["ext", "index.json"]));
    let mut e = extension("foo");
    e.grammar_files = Some(vec![s("foo.wasm")]);
    let rebuilt = store.rebuild_manifest(&vec![e]).unwrap();
    assert_eq!(store.commit_rebuild(rebuilt, false), Err(RebuildError::Persist));
    assert!(store.manifest().grammars.is_empty());
}

#[test]
fn bad_theme_file_is_skipped() {
    let mut e = extension("foo");
    e.theme_files = Some(vec![
        theme_file("good.json", &family(&["Light", "Dark"])),
        theme_file("broken.json", "{ not json"),
        theme_file("incomplete.json", "{\"name\": \"X\"}"),
        ThemeFile { filename: s("unreadable.json"), contents: None },
    ]);
    let m = scan_extensions(&vec![e]).unwrap();
    assert_eq!(m.themes_by_name.len(), 2);
    assert_eq!(
        theme_location(&m.themes_by_name, "Dark"),
        Some(&ThemeLocation { extension: s("foo"), filename: s("good.json") })
    );
    assert!(theme_location(&m.themes_by_name, "Light").is_some());
}

#[test]
fn theme_name_collision_last_extension_wins() {
    let mut first = extension("first");
    first.theme_files = Some(vec![theme_file("solar.json", &family(&["Solar"]))]);
    let mut second = extension("second");
    second.theme_files = Some(vec![theme_file("sun.json", &family(&["Solar"]))]);
    let m = scan_extensions(&vec![first, second]).unwrap();
    assert_eq!(m.themes_by_name.len(), 1);
    assert_eq!(
        theme_location(&m.themes_by_name, "Solar"),
        Some(&ThemeLocation { extension: s("second"), filename: s("sun.json") })
    );
}

#[test]
fn rebuilding_twice_gives_the_same_manifest() {
    let mut e = extension("foo");
    e.grammar_files = Some(vec![s("b.wasm"), s("a.wasm")]);
    e.languages = Some(vec![language("y", "name = \"Y\""), language("x", "name = \"X\"")]);
    e.theme_files = Some(vec![theme_file("t.json", &family(&["T"]))]);
    let listing = vec![e];
    let first = scan_extensions(&listing).unwrap();
    let second = scan_extensions(&listing).unwrap();
    assert_eq!(first, second);
    assert_eq!(first.languages[0].language_dir, "x");
}

#[test]
fn load_registers_language_root() {
    let mut store = ExtensionStore::new(path(&["home", "extensions"]), path(&["home", "m.json"]));
    let mut e = extension("foo");
    e.languages = Some(vec![language("bar", "name = \"Bar\"\npath_suffixes = [\"bar\"]")]);
    e.grammar_files = Some(vec![s("bar.wasm")]);
    e.theme_files = Some(vec![theme_file("bar.json", &family(&["Bar Dark"]))]);
    let manifest = scan_extensions(&vec![e]).unwrap();
    let plan = store.load(manifest);
    assert_eq!(plan.languages.len(), 1);
    assert_eq!(plan.languages[0].name, "Bar");
    assert!(plan.languages[0].root.ends_with(&path(&["foo", "languages", "bar"])));
    assert_eq!(plan.languages[0].matcher.path_suffixes, vec![s("bar")]);
    assert_eq!(
        plan.grammars,
        vec![(s("bar"), path(&["home", "extensions", "foo", "grammars", "bar.wasm"]))]
    );
    assert_eq!(plan.theme_paths, vec![path(&["home", "extensions", "foo", "themes", "bar.json"])]);
    assert_eq!(store.manifest().languages.len(), 1);
}

#[test]
fn changes_map_to_languages() {
    let mut store = ExtensionStore::new(path(&["ext"]), path(&["m.json"]));
    let mut e = extension("foo");
    e.languages = Some(vec![language("bar", "name = \"Bar\""), language("baz", "name = \"Baz\"")]);
    store.load(scan_extensions(&vec![e]).unwrap());

    let nested = store.changed_languages(&vec![path(&["ext", "foo", "languages", "bar", "highlights.scm"])]);
    assert_eq!(nested, vec![s("Bar")]);
    let root = store.changed_languages(&vec![
        path(&["ext", "foo", "languages", "baz"]),
        path(&["ext", "foo", "languages", "baz", "config.toml"]),
    ]);
    assert_eq!(root, vec![s("Baz")]);
    let elsewhere = store.changed_languages(&vec![
        path(&["ext", "foo", "themes", "a.json"]),
        path(&["ext", "foo", "languages", "barn"]),
    ]);
    assert!(elsewhere.is_empty());
}

#[test]
fn file_stem_follows_path_rules() {
    assert_eq!(file_stem("rust.wasm"), "rust");
    assert_eq!(file_stem("a.b.wasm"), "a.b");
    assert_eq!(file_stem(".hidden"), ".hidden");
    assert_eq!(file_stem("plain"), "plain");
    assert_eq!(file_stem(".."), "..");
}

#[test]
fn concat_joins_texts() {
    assert_eq!(join_text("rust", ".wasm"), "rust.wasm");
}

#[test]
fn text_order_is_by_code_point() {
    assert!(le_text("abc", "abd"));
    assert!(le_text("ab", "abc"));
    assert!(!le_text("b", "abc"));
    assert!(le_text("", ""));
}

#[test]
fn language_config_parsing() {
    let c = parse_language_config("name = \"Rust\"\n[brackets]\npairs = 1\n").unwrap();
    assert_eq!(c.name, "Rust");
    assert!(c.matcher.path_suffixes.is_empty());
    assert_eq!(c.matcher.first_line_pattern, None);
    assert!(parse_language_config("name = 3").is_none());
    assert!(parse_language_config("name = \"A\"\npath_suffixes = [1]").is_none());
}

#[test]
fn theme_family_parsing() {
    assert_eq!(parse_theme_names(&family(&["One", "Two"])), Some(vec![s("One"), s("Two")]));
    assert_eq!(parse_theme_names("[]"), None);
    assert_eq!(parse_theme_names("{\"name\": \"F\", \"author\": \"A\", \"themes\": [{}]}"), None);
}

#[test]
fn grammar_entries_compare_by_fields() {
    let a = GrammarManifestEntry { extension: s("a"), grammar_name: s("z") };
    let b = GrammarManifestEntry { extension: s("b"), grammar_name: s("a") };
    assert!(a.le(&b));
    assert!(!b.le(&a));
}

#[test]
fn manifest_json_round_trip() {
    let mut e = extension("foo");
    e.grammar_files = Some(vec![s("bar.wasm")]);
    e.languages = Some(vec![
        language("bar", "name = \"Bar\"\npath_suffixes = [\"bar\", \"br\"]\nfirst_line_pattern = \"x\""),
        language("baz", "name = \"Baz\""),
    ]);
    e.theme_files = Some(vec![theme_file("t.json", &family(&["One", "Two"]))]);
    let m = scan_extensions(&vec![e]).unwrap();
    let text = manifest_to_json(&m);
    assert!(text.contains("\n  "));
    let back = manifest_from_json(&text).unwrap();
    assert_eq!(back, m);
    assert_eq!(manifest_to_json(&back), text);
}

#[test]
fn malformed_manifest_is_rejected() {
    assert!(manifest_from_json("not json").is_none());
    assert!(manifest_from_json("{\"grammars\": []}").is_none());
    let empty = manifest_from_json("{\"grammars\": [], \"languages\": [], \"themes_by_name\": {}}").unwrap();
    assert!(empty.grammars.is_empty() && empty.languages.is_empty() && empty.themes_by_name.is_empty());
}

#[test]
fn grammar_with_dotted_name_keeps_full_name() {
    let mut store = ExtensionStore::new(path(&["ext"]), path(&["index.json"]));
    let mut e = extension("foo");
    e.grammar_files = Some(vec![s("a.b.wasm")]);
    let plan = store.load(scan_extensions(&vec![e]).unwrap());
    assert_eq!(plan.grammars, vec![(s("a.b"), path(&["ext", "foo", "grammars", "a.b.wasm"]))]);
}

#[test]
fn persisted_text_is_stable_and_pretty() {
    let mut e = extension("foo");
    e.grammar_files = Some(vec![s("b.wasm"), s("a.wasm")]);
    e.theme_files = Some(vec![theme_file("t.json", &family(&["Zed", "Ayu"]))]);
    let listing = vec![e];
    let first = manifest_to_json(&scan_extensions(&listing).unwrap());
    let second = manifest_to_json(&scan_extensions(&listing).unwrap());
    assert_eq!(first, second);
    assert!(first.starts_with("{\n  \"grammars\": ["));
}
