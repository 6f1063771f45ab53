use vstd::prelude::*;
use crate::document::{LanguageConfig, config_of, parse_language_config, parse_theme_names, theme_names_of, json_document, toml_document};
use crate::manifest::{
    GrammarManifestEntry, GrammarView, LanguageManifestEntry, LanguageView, Manifest,
    ThemeLocation, ThemeLocationView, insert_theme, texts_view, themes_map, theme_pairs, pairs_insert,
};
use crate::codec::persisted_text;
use crate::order::{lemma_sorted_unique, sort_canonical, views};
use crate::text::{file_stem, stem_of};

verus! {

/// A language directory under `languages/`, with the text of its
/// `config.toml` (`None` where that file could not be read).
#[derive(Clone, Debug, PartialEq, Eq)]
pub struct LanguageListing {
    pub dir_name: String,
    pub config: Option<String>,
}

/// A file under `themes/`, with its text (`None` where it could not be read).
#[derive(Clone, Debug, PartialEq, Eq)]
pub struct ThemeFile {
    pub filename: String,
    pub contents: Option<String>,
}

/// One extension directory: its name and what its `grammars/`,
/// `languages/` and `themes/` folders hold (`None` for a folder that is
/// absent or cannot be listed).
#[derive(Clone, Debug, PartialEq, Eq)]
pub struct ExtensionListing {
    pub name: String,
    pub grammar_files: Option<Vec<String>>,
    pub languages: Option<Vec<LanguageListing>>,
    pub theme_files: Option<Vec<ThemeFile>>,
}

/// Why a rebuild failed.
#[derive(Clone, Debug, PartialEq, Eq)]
pub enum RebuildError {
    /// A language's `config.toml` could not be read.
    Io { extension: String, language_dir: String },
    /// A language's `config.toml` does not declare a language.
    Deserialize { extension: String, language_dir: String },
    /// The rebuilt manifest could not be written.
    Persist,
}

/// The configuration that a language directory declares, if it declares one.
pub open spec fn listing_config(l: LanguageListing) -> Option<crate::document::LanguageConfigView> {
    match l.config {
        Some(text) => match toml_document(text@) {
            Some(d) => config_of(d),
            None => None,
        },
        None => None,
    }
}

/// The language directories of an extension; none where `languages/` is absent.
pub open spec fn languages_of(e: ExtensionListing) -> Seq<LanguageListing> {
    match e.languages {
        Some(ls) => ls@,
        None => Seq::empty(),
    }
}

pub open spec fn language_ok(l: LanguageListing) -> bool {
    listing_config(l) is Some
}

pub open spec fn extension_languages_ok(e: ExtensionListing) -> bool {
    forall|j: int| 0 <= j < languages_of(e).len() ==> #[trigger] language_ok(languages_of(e)[j])
}

/// Every language of every extension declares a configuration.
pub open spec fn scan_ok(exts: Seq<ExtensionListing>) -> bool {
    forall|i: int| 0 <= i < exts.len() ==> #[trigger] extension_languages_ok(exts[i])
}

/// The error reported for a language directory that declares no configuration.
pub open spec fn failure_of(e: ExtensionListing, l: LanguageListing) -> (bool, Seq<char>, Seq<char>) {
    (l.config is None, e.name@, l.dir_name@)
}

pub open spec fn error_view(err: RebuildError) -> (bool, Seq<char>, Seq<char>) {
    match err {
        RebuildError::Io { extension, language_dir } => (true, extension@, language_dir@),
        RebuildError::Deserialize { extension, language_dir } => (false, extension@, language_dir@),
        RebuildError::Persist => (false, Seq::empty(), Seq::empty()),
    }
}

/// `err` names the first language, in listing order, that declares no
/// configuration.
pub open spec fn is_first_failure(exts: Seq<ExtensionListing>, err: RebuildError) -> bool {
    !(err is Persist) && exists|i: int, j: int|
        0 <= i < exts.len() && 0 <= j < languages_of(exts[i]).len() && !language_ok(
            languages_of(exts[i])[j],
        ) && error_view(err) == failure_of(exts[i], languages_of(exts[i])[j]) && (forall|a: int|
            0 <= a < i ==> #[trigger] extension_languages_ok(exts[a])) && (forall|b: int|
            0 <= b < j ==> #[trigger] language_ok(languages_of(exts[i])[b]))
}

pub open spec fn extension_grammars(e: ExtensionListing) -> Seq<GrammarView> {
    match e.grammar_files {
        Some(files) => files@.map_values(
            |f: String| GrammarView { extension: e.name@, grammar_name: stem_of(f@) },
        ),
        None => Seq::empty(),
    }
}

/// The grammars of all extensions, in listing order.
pub open spec fn all_grammars(exts: Seq<ExtensionListing>) -> Seq<GrammarView>
    decreases exts.len(),
{
    if exts.len() == 0 {
        Seq::empty()
    } else {
        all_grammars(exts.drop_last()) + extension_grammars(exts.last())
    }
}

pub open spec fn language_entry(e: ExtensionListing, l: LanguageListing) -> LanguageView {
    LanguageView {
        extension: e.name@,
        language_dir: l.dir_name@,
        name: listing_config(l)->Some_0.name,
        matcher: listing_config(l)->Some_0.matcher,
    }
}

pub open spec fn extension_languages(e: ExtensionListing) -> Seq<LanguageView> {
    match e.languages {
        Some(ls) => ls@.map_values(|l: LanguageListing| language_entry(e, l)),
        None => Seq::empty(),
    }
}

/// The languages of all extensions, in listing order.
pub open spec fn all_languages(exts: Seq<ExtensionListing>) -> Seq<LanguageView>
    decreases exts.len(),
{
    if exts.len() == 0 {
        Seq::empty()
    } else {
        all_languages(exts.drop_last()) + extension_languages(exts.last())
    }
}

/// The theme names a theme file declares, if it reads as a theme family.
pub open spec fn file_theme_names(f: ThemeFile) -> Option<Seq<Seq<char>>> {
    match f.contents {
        Some(text) => match json_document(text@) {
            Some(d) => theme_names_of(d),
            None => None,
        },
        None => None,
    }
}

/// `m` with each of `names` set to `loc`, in order.
pub open spec fn insert_names(
    m: Map<Seq<char>, ThemeLocationView>,
    names: Seq<Seq<char>>,
    loc: ThemeLocationView,
) -> Map<Seq<char>, ThemeLocationView>
    decreases names.len(),
{
    if names.len() == 0 {
        m
    } else {
        insert_names(m, names.drop_last(), loc).insert(names.last(), loc)
    }
}

pub open spec fn file_themes(
    m: Map<Seq<char>, ThemeLocationView>,
    ext: Seq<char>,
    f: ThemeFile,
) -> Map<Seq<char>, ThemeLocationView> {
    match file_theme_names(f) {
        Some(names) => insert_names(m, names, ThemeLocationView { extension: ext, filename: f.filename@ }),
        None => m,
    }
}

/// `m` after the theme files `files`, in order.
pub open spec fn files_themes(
    m: Map<Seq<char>, ThemeLocationView>,
    ext: Seq<char>,
    files: Seq<ThemeFile>,
) -> Map<Seq<char>, ThemeLocationView>
    decreases files.len(),
{
    if files.len() == 0 {
        m
    } else {
        file_themes(files_themes(m, ext, files.drop_last()), ext, files.last())
    }
}

pub open spec fn extension_themes(
    m: Map<Seq<char>, ThemeLocationView>,
    e: ExtensionListing,
) -> Map<Seq<char>, ThemeLocationView> {
    match e.theme_files {
        Some(files) => files_themes(m, e.name@, files@),
        None => m,
    }
}

/// Theme locations by name after all extensions, later ones overriding
/// earlier ones.
pub open spec fn all_themes(exts: Seq<ExtensionListing>) -> Map<Seq<char>, ThemeLocationView>
    decreases exts.len(),
{
    if exts.len() == 0 {
        Map::empty()
    } else {
        extension_themes(all_themes(exts.drop_last()), exts.last())
    }
}

/// `m` is what a scan of `exts` gives: every grammar and language of the
/// listing, each once, in canonical order, and the theme map of the listing.
pub open spec fn scanned_from(m: Manifest, exts: Seq<ExtensionListing>) -> bool {
    m.well_formed() && m@.grammars.to_multiset() == all_grammars(exts).to_multiset()
        && m@.languages.to_multiset() == all_languages(exts).to_multiset() && m@.themes_by_name
        == all_themes(exts) && theme_pairs(m.themes_by_name@) == all_theme_pairs(exts)
}

/// Two scans of the same listing give the same manifest and the same
/// persisted text: the canonical order and the theme entries leave no
/// choice, so rebuilding twice with no change on disk writes the same bytes.
pub proof fn lemma_rebuild_idempotent(exts: Seq<ExtensionListing>, first: Manifest, second: Manifest)
    requires
        scanned_from(first, exts),
        scanned_from(second, exts),
    ensures
        first@ == second@,
        persisted_text(first) == persisted_text(second),
{
    lemma_sorted_unique::<GrammarManifestEntry>(first@.grammars, second@.grammars);
    lemma_sorted_unique::<LanguageManifestEntry>(first@.languages, second@.languages);
}

/// `p` with each of `names` set to `loc`, in order.
pub open spec fn insert_names_pairs(
    p: Seq<(Seq<char>, ThemeLocationView)>,
    names: Seq<Seq<char>>,
    loc: ThemeLocationView,
) -> Seq<(Seq<char>, ThemeLocationView)>
    decreases names.len(),
{
    if names.len() == 0 {
        p
    } else {
        pairs_insert(insert_names_pairs(p, names.drop_last(), loc), names.last(), loc)
    }
}

pub open spec fn file_pairs(
    p: Seq<(Seq<char>, ThemeLocationView)>,
    ext: Seq<char>,
    f: ThemeFile,
) -> Seq<(Seq<char>, ThemeLocationView)> {
    match file_theme_names(f) {
        Some(names) => insert_names_pairs(p, names, ThemeLocationView { extension: ext, filename: f.filename@ }),
        None => p,
    }
}

pub open spec fn files_pairs(
    p: Seq<(Seq<char>, ThemeLocationView)>,
    ext: Seq<char>,
    files: Seq<ThemeFile>,
) -> Seq<(Seq<char>, ThemeLocationView)>
    decreases files.len(),
{
    if files.len() == 0 {
        p
    } else {
        file_pairs(files_pairs(p, ext, files.drop_last()), ext, files.last())
    }
}

pub open spec fn extension_pairs(
    p: Seq<(Seq<char>, ThemeLocationView)>,
    e: ExtensionListing,
) -> Seq<(Seq<char>, ThemeLocationView)> {
    match e.theme_files {
        Some(files) => files_pairs(p, e.name@, files@),
        None => p,
    }
}

/// The theme entries after all extensions, in the order names were first
/// seen, each with the location read last.
pub open spec fn all_theme_pairs(exts: Seq<ExtensionListing>) -> Seq<(Seq<char>, ThemeLocationView)>
    decreases exts.len(),
{
    if exts.len() == 0 {
        Seq::empty()
    } else {
        extension_pairs(all_theme_pairs(exts.drop_last()), exts.last())
    }
}

fn push_grammars(grammars: &mut Vec<GrammarManifestEntry>, e: &ExtensionListing)
    ensures
        views(final(grammars)@) == views(old(grammars)@) + extension_grammars(*e),
{
    let ghost start = views(grammars@);
    if let Some(files) = &e.grammar_files {
        let mut k: usize = 0;
        while k < files.len()
            invariant
                e.grammar_files == Some(*files),
                k <= files.len(),
                views(grammars@) == start + extension_grammars(*e).take(k as int),
            decreases files.len() - k,
        {
            let ghost prev = grammars@;
            let entry = GrammarManifestEntry {
                extension: e.name.clone(),
                grammar_name: file_stem(files[k].as_str()),
            };
            grammars.push(entry);
            proof {
                assert(views(grammars@) =~= views(prev).push(entry@));
                assert(extension_grammars(*e).take(k + 1) =~= extension_grammars(*e).take(
                    k as int,
                ).push(entry@));
            }
            k = k + 1;
        }
        proof {
            assert(extension_grammars(*e).take(files.len() as int) =~= extension_grammars(*e));
        }
    } else {
        assert(views(grammars@) =~= start + extension_grammars(*e));
    }
}

/// Adds the languages of `e`, or reports the first one that declares no
/// configuration.
fn push_languages(languages: &mut Vec<LanguageManifestEntry>, e: &ExtensionListing) -> (r: Result<
    (),
    RebuildError,
>)
    ensures
        r is Ok <==> extension_languages_ok(*e),
        r is Ok ==> views(final(languages)@) == views(old(languages)@) + extension_languages(*e),
        r matches Err(err) ==> !(err is Persist) && exists|j: int|
            0 <= j < languages_of(*e).len() && !language_ok(languages_of(*e)[j]) && error_view(err)
                == failure_of(*e, languages_of(*e)[j]) && forall|b: int|
                0 <= b < j ==> #[trigger] language_ok(languages_of(*e)[b]),
{
    let ghost start = views(languages@);
    if let Some(ls) = &e.languages {
        let mut k: usize = 0;
        while k < ls.len()
            invariant
                e.languages == Some(*ls),
                k <= ls.len(),
                forall|b: int| 0 <= b < k ==> #[trigger] language_ok(ls@[b]),
                views(languages@) == start + extension_languages(*e).take(k as int),
            decreases ls.len() - k,
        {
            let listing = &ls[k];
            proof {
                assert(languages_of(*e) == ls@);
                assert(ls@[k as int] == *listing);
            }
            let parsed = match &listing.config {
                Some(text) => parse_language_config(text.as_str()),
                None => {
                    proof {
                        assert(!language_ok(languages_of(*e)[k as int]));
                    }
                    return Err(
                        RebuildError::Io {
                            extension: e.name.clone(),
                            language_dir: listing.dir_name.clone(),
                        },
                    );
                },
            };
            let config: LanguageConfig = match parsed {
                Some(c) => c,
                None => {
                    proof {
                        assert(!language_ok(languages_of(*e)[k as int]));
                    }
                    return Err(
                        RebuildError::Deserialize {
                            extension: e.name.clone(),
                            language_dir: listing.dir_name.clone(),
                        },
                    );
                },
            };
            let ghost prev = languages@;
            let entry = LanguageManifestEntry {
                extension: e.name.clone(),
                language_dir: listing.dir_name.clone(),
                name: config.name,
                matcher: config.matcher,
            };
            languages.push(entry);
            proof {
                assert(entry@ == language_entry(*e, ls@[k as int]));
                assert(views(languages@) =~= views(prev).push(entry@));
                assert(extension_languages(*e).take(k + 1) =~= extension_languages(*e).take(
                    k as int,
                ).push(entry@));
            }
            k = k + 1;
        }
        proof {
            assert(extension_languages(*e).take(ls.len() as int) =~= extension_languages(*e));
        }
    } else {
        assert(views(languages@) =~= start + extension_languages(*e));
    }
    Ok(())
}

fn insert_theme_names(
    themes: &mut Vec<(String, ThemeLocation)>,
    names: Vec<String>,
    e: &ExtensionListing,
    f: &ThemeFile,
)
    requires
        crate::manifest::theme_names_unique(old(themes)@),
    ensures
        crate::manifest::theme_names_unique(final(themes)@),
        themes_map(final(themes)@) == insert_names(
            themes_map(old(themes)@),
            texts_view(names@),
            ThemeLocationView { extension: e.name@, filename: f.filename@ },
        ),
        theme_pairs(final(themes)@) == insert_names_pairs(
            theme_pairs(old(themes)@),
            texts_view(names@),
            ThemeLocationView { extension: e.name@, filename: f.filename@ },
        ),
{
    let ghost start = themes_map(themes@);
    let ghost start_pairs = theme_pairs(themes@);
    let ghost loc = ThemeLocationView { extension: e.name@, filename: f.filename@ };
    let mut k: usize = 0;
    while k < names.len()
        invariant
            loc == (ThemeLocationView { extension: e.name@, filename: f.filename@ }),
            k <= names.len(),
            crate::manifest::theme_names_unique(themes@),
            themes_map(themes@) == insert_names(start, texts_view(names@).take(k as int), loc),
            theme_pairs(themes@) == insert_names_pairs(start_pairs, texts_view(names@).take(k as int), loc),
        decreases names.len() - k,
    {
        let location = ThemeLocation { extension: e.name.clone(), filename: f.filename.clone() };
        let name = names[k].clone();
        let ghost prev = themes_map(themes@);
        let ghost prev_pairs = theme_pairs(themes@);
        proof {
            assert(location@ == loc);
            assert(name@ == texts_view(names@)[k as int]);
        }
        insert_theme(themes, name, location);
        proof {
            assert(themes_map(themes@) == prev.insert(texts_view(names@)[k as int], loc));
            assert(theme_pairs(themes@) == pairs_insert(prev_pairs, texts_view(names@)[k as int], loc));
            assert(texts_view(names@).take(k + 1).last() == names@[k as int]@);
            assert(texts_view(names@).take(k + 1).drop_last() =~= texts_view(names@).take(
                k as int,
            ));
        }
        k = k + 1;
    }
    proof {
        assert(texts_view(names@).take(names.len() as int) =~= texts_view(names@));
    }
}

fn add_extension_themes(themes: &mut Vec<(String, ThemeLocation)>, e: &ExtensionListing)
    requires
        crate::manifest::theme_names_unique(old(themes)@),
    ensures
        crate::manifest::theme_names_unique(final(themes)@),
        themes_map(final(themes)@) == extension_themes(themes_map(old(themes)@), *e),
        theme_pairs(final(themes)@) == extension_pairs(theme_pairs(old(themes)@), *e),
{
    let ghost start = themes_map(themes@);
    let ghost start_pairs = theme_pairs(themes@);
    if let Some(files) = &e.theme_files {
        let mut k: usize = 0;
        while k < files.len()
            invariant
                e.theme_files == Some(*files),
                k <= files.len(),
                crate::manifest::theme_names_unique(themes@),
                themes_map(themes@) == files_themes(start, e.name@, files@.take(k as int)),
                theme_pairs(themes@) == files_pairs(start_pairs, e.name@, files@.take(k as int)),
            decreases files.len() - k,
        {
            let f = &files[k];
            proof {
                assert(files@.take(k + 1).drop_last() =~= files@.take(k as int));
            }
            let names = match &f.contents {
                Some(text) => parse_theme_names(text.as_str()),
                None => None,
            };
            match names {
                Some(names) => {
                    insert_theme_names(themes, names, e, f);
                },
                None => {},
            }
            k = k + 1;
        }
        proof {
            assert(files@.take(files.len() as int) =~= files@);
        }
    }
}

/// Builds a manifest out of a listing of the extensions directory: every
/// grammar file, every language directory and every theme that a readable
/// theme family declares. Grammars and languages come sorted; a theme name
/// declared twice keeps the location read last. Fails on the first language
/// whose configuration cannot be read or does not declare a language.
pub fn scan_extensions(exts: &Vec<ExtensionListing>) -> (r: Result<Manifest, RebuildError>)
    ensures
        r is Ok <==> scan_ok(exts@),
        r matches Ok(m) ==> scanned_from(m, exts@),
        r matches Err(err) ==> is_first_failure(exts@, err),
{
    let mut grammars: Vec<GrammarManifestEntry> = Vec::new();
    let mut languages: Vec<LanguageManifestEntry> = Vec::new();
    let mut themes: Vec<(String, ThemeLocation)> = Vec::new();
    let mut i: usize = 0;
    while i < exts.len()
        invariant
            i <= exts.len(),
            forall|a: int| 0 <= a < i ==> #[trigger] extension_languages_ok(exts@[a]),
            views(grammars@) == all_grammars(exts@.take(i as int)),
            views(languages@) == all_languages(exts@.take(i as int)),
            crate::manifest::theme_names_unique(themes@),
            themes_map(themes@) == all_themes(exts@.take(i as int)),
            theme_pairs(themes@) == all_theme_pairs(exts@.take(i as int)),
        decreases exts.len() - i,
    {
        let e = &exts[i];
        proof {
            assert(exts@.take(i + 1).drop_last() =~= exts@.take(i as int));
            assert(exts@.take(i + 1).last() == exts@[i as int]);
        }
        push_grammars(&mut grammars, e);
        match push_languages(&mut languages, e) {
            Ok(()) => {},
            Err(err) => {
                proof {
                    assert(is_first_failure(exts@, err)) by {
                        let j = choose|j: int|
                            0 <= j < languages_of(*e).len() && !language_ok(languages_of(*e)[j])
                                && error_view(err) == failure_of(*e, languages_of(*e)[j])
                                && forall|b: int|
                                0 <= b < j ==> #[trigger] language_ok(languages_of(*e)[b]);
                        assert(exts@[i as int] == *e);
                    }
                    assert(!extension_languages_ok(exts@[i as int]));
                    assert(!scan_ok(exts@));
                }
                return Err(err);
            },
        }
        add_extension_themes(&mut themes, e);
        i = i + 1;
    }
    proof {
        assert(exts@.take(exts.len() as int) =~= exts@);
    }
    let grammars = sort_canonical(grammars);
    let languages = sort_canonical(languages);
    Ok(Manifest { grammars, languages, themes_by_name: themes })
}

/// An extension without a `grammars/`, `languages/` or `themes/` folder
/// contributes nothing of that kind, and a missing folder never fails a
/// scan: the scan succeeds whenever every `languages/` folder that exists
/// holds only valid configurations, and where no extension has one it
/// succeeds with no languages.
pub proof fn lemma_missing_folders(exts: Seq<ExtensionListing>)
    ensures
        forall|i: int|
            0 <= i < exts.len() && (#[trigger] exts[i]).grammar_files is None ==> extension_grammars(
                exts[i],
            ).len() == 0,
        forall|i: int|
            0 <= i < exts.len() && (#[trigger] exts[i]).languages is None ==> extension_languages_ok(
                exts[i],
            ) && extension_languages(exts[i]).len() == 0,
        forall|i: int, m: Map<Seq<char>, ThemeLocationView>|
            0 <= i < exts.len() && (#[trigger] exts[i]).theme_files is None ==> #[trigger] extension_themes(
                m,
                exts[i],
            ) == m,
        (forall|i: int| 0 <= i < exts.len() ==> (#[trigger] exts[i]).languages is None) ==> scan_ok(
            exts,
        ) && all_languages(exts).len() == 0,
        (forall|i: int|
            0 <= i < exts.len() ==> (#[trigger] exts[i]).languages is None || extension_languages_ok(
                exts[i],
            )) ==> scan_ok(exts),
    decreases exts.len(),
{
    if exts.len() > 0 {
        lemma_missing_folders(exts.drop_last());
        if forall|i: int| 0 <= i < exts.len() ==> (#[trigger] exts[i]).languages is None {
            assert forall|i: int| 0 <= i < exts.drop_last().len() implies (
            #[trigger] exts.drop_last()[i]).languages is None by {
                assert(exts.drop_last()[i] == exts[i]);
            }
            assert(exts[exts.len() - 1].languages is None);
        }
    }
}

/// A language directory whose configuration cannot be read, or does not
/// declare a language, fails the whole scan.
pub proof fn lemma_bad_config_fails(exts: Seq<ExtensionListing>, i: int, j: int)
    requires
        0 <= i < exts.len(),
        0 <= j < languages_of(exts[i]).len(),
        !language_ok(languages_of(exts[i])[j]),
    ensures
        !scan_ok(exts),
{
    assert(!extension_languages_ok(exts[i]));
}

/// Whether theme file `f` reads as a theme family that declares `n`.
pub open spec fn file_declares(f: ThemeFile, n: Seq<char>) -> bool {
    file_theme_names(f) is Some && file_theme_names(f)->Some_0.contains(n)
}

/// The theme files of an extension; none where `themes/` is absent.
pub open spec fn theme_files_of(e: ExtensionListing) -> Seq<ThemeFile> {
    match e.theme_files {
        Some(files) => files@,
        None => Seq::empty(),
    }
}

/// Whether some readable theme family of some extension declares `n`.
pub open spec fn declared_theme(exts: Seq<ExtensionListing>, n: Seq<char>) -> bool {
    exists|i: int, k: int|
        0 <= i < exts.len() && 0 <= k < theme_files_of(exts[i]).len() && #[trigger] file_declares(
            theme_files_of(exts[i])[k],
            n,
        )
}

proof fn lemma_insert_names_keys(
    m: Map<Seq<char>, ThemeLocationView>,
    names: Seq<Seq<char>>,
    loc: ThemeLocationView,
    n: Seq<char>,
)
    ensures
        insert_names(m, names, loc).contains_key(n) <==> (m.contains_key(n) || names.contains(n)),
    decreases names.len(),
{
    if names.len() > 0 {
        lemma_insert_names_keys(m, names.drop_last(), loc, n);
        if names.contains(n) && n != names.last() {
            let k = choose|k: int| 0 <= k < names.len() && names[k] == n;
            assert(names.drop_last()[k] == n);
        }
        if names.drop_last().contains(n) {
            let k = choose|k: int| 0 <= k < names.drop_last().len() && names.drop_last()[k] == n;
            assert(names[k] == n);
        }
        if n == names.last() {
            assert(names[names.len() - 1] == n);
        }
    }
}

proof fn lemma_files_themes_keys(
    m: Map<Seq<char>, ThemeLocationView>,
    ext: Seq<char>,
    files: Seq<ThemeFile>,
    n: Seq<char>,
)
    ensures
        files_themes(m, ext, files).contains_key(n) <==> (m.contains_key(n) || exists|k: int|
            0 <= k < files.len() && #[trigger] file_declares(files[k], n)),
    decreases files.len(),
{
    if files.len() > 0 {
        let rest = files.drop_last();
        let f = files.last();
        lemma_files_themes_keys(m, ext, rest, n);
        let before = files_themes(m, ext, rest);
        if let Some(names) = file_theme_names(f) {
            lemma_insert_names_keys(
                before,
                names,
                ThemeLocationView { extension: ext, filename: f.filename@ },
                n,
            );
        }
        if exists|k: int| 0 <= k < files.len() && #[trigger] file_declares(files[k], n) {
            let k = choose|k: int| 0 <= k < files.len() && #[trigger] file_declares(files[k], n);
            if k < files.len() - 1 {
                assert(file_declares(rest[k], n));
            }
        }
        if exists|k: int| 0 <= k < rest.len() && #[trigger] file_declares(rest[k], n) {
            let k = choose|k: int| 0 <= k < rest.len() && #[trigger] file_declares(rest[k], n);
            assert(file_declares(files[k], n));
        }
        if file_declares(f, n) {
            assert(file_declares(files[files.len() - 1], n));
        }
    }
}

/// A theme name is known after a scan exactly when some theme file that
/// reads as a theme family declares it: a file that does not parse adds
/// nothing and takes nothing away from the others.
pub proof fn lemma_theme_names_known(exts: Seq<ExtensionListing>, n: Seq<char>)
    ensures
        all_themes(exts).contains_key(n) <==> declared_theme(exts, n),
    decreases exts.len(),
{
    if exts.len() > 0 {
        let rest = exts.drop_last();
        let e = exts.last();
        lemma_theme_names_known(rest, n);
        let before = all_themes(rest);
        lemma_files_themes_keys(before, e.name@, theme_files_of(e), n);
        assert(extension_themes(before, e) == files_themes(before, e.name@, theme_files_of(e))) by {
            if e.theme_files is None {
                assert(theme_files_of(e).len() == 0);
            }
        }
        if declared_theme(exts, n) {
            let (i, k) = choose|i: int, k: int|
                0 <= i < exts.len() && 0 <= k < theme_files_of(exts[i]).len()
                    && #[trigger] file_declares(theme_files_of(exts[i])[k], n);
            if i < exts.len() - 1 {
                assert(rest[i] == exts[i]);
                assert(file_declares(theme_files_of(rest[i])[k], n));
            } else {
                assert(file_declares(theme_files_of(e)[k], n));
            }
        }
        if declared_theme(rest, n) {
            let (i, k) = choose|i: int, k: int|
                0 <= i < rest.len() && 0 <= k < theme_files_of(rest[i]).len()
                    && #[trigger] file_declares(theme_files_of(rest[i])[k], n);
            assert(rest[i] == exts[i]);
            assert(file_declares(theme_files_of(exts[i])[k], n));
        }
        if exists|k: int| 0 <= k < theme_files_of(e).len() && #[trigger] file_declares(theme_files_of(e)[k], n) {
            let k = choose|k: int| 0 <= k < theme_files_of(e).len() && #[trigger] file_declares(theme_files_of(e)[k], n);
            assert(exts[exts.len() - 1] == e);
            assert(file_declares(theme_files_of(exts[exts.len() - 1])[k], n));
        }
    }
}

proof fn lemma_extension_folds(
    m: Map<Seq<char>, ThemeLocationView>,
    p: Seq<(Seq<char>, ThemeLocationView)>,
    e: ExtensionListing,
)
    ensures
        extension_themes(m, e) == files_themes(m, e.name@, theme_files_of(e)),
        extension_pairs(p, e) == files_pairs(p, e.name@, theme_files_of(e)),
{
}

proof fn lemma_files_skip_unreadable(
    m: Map<Seq<char>, ThemeLocationView>,
    p: Seq<(Seq<char>, ThemeLocationView)>,
    ext: Seq<char>,
    files: Seq<ThemeFile>,
    k: int,
)
    requires
        0 <= k < files.len(),
        file_theme_names(files[k]) is None,
    ensures
        files_themes(m, ext, files.remove(k)) == files_themes(m, ext, files),
        files_pairs(p, ext, files.remove(k)) == files_pairs(p, ext, files),
    decreases files.len(),
{
    if k == files.len() - 1 {
        assert(files.remove(k) =~= files.drop_last());
    } else {
        lemma_files_skip_unreadable(m, p, ext, files.drop_last(), k);
        assert(files.remove(k).drop_last() =~= files.drop_last().remove(k));
        assert(files.remove(k).last() == files.last());
    }
}

/// A theme file that does not read as a theme family changes nothing: the
/// listing without it gives the same theme locations and entries, so the
/// valid files beside it keep exactly the locations they would have alone.
pub proof fn lemma_unreadable_theme_ignored(
    exts: Seq<ExtensionListing>,
    others: Seq<ExtensionListing>,
    i: int,
    k: int,
)
    requires
        exts.len() == others.len(),
        0 <= i < exts.len(),
        0 <= k < theme_files_of(exts[i]).len(),
        file_theme_names(theme_files_of(exts[i])[k]) is None,
        others[i].name@ == exts[i].name@,
        theme_files_of(others[i]) == theme_files_of(exts[i]).remove(k),
        forall|j: int|
            0 <= j < exts.len() && j != i ==> (#[trigger] others[j]).name@ == exts[j].name@
                && theme_files_of(others[j]) == theme_files_of(exts[j]),
    ensures
        all_themes(others) == all_themes(exts),
        all_theme_pairs(others) == all_theme_pairs(exts),
    decreases exts.len(),
{
    let n = exts.len() - 1;
    let m = all_themes(exts.drop_last());
    let p = all_theme_pairs(exts.drop_last());
    if i < n {
        lemma_unreadable_theme_ignored(exts.drop_last(), others.drop_last(), i, k);
        assert(others.drop_last()[i] == others[i]);
        assert(exts.drop_last()[i] == exts[i]);
        assert(others[n].name@ == exts[n].name@);
    } else {
        assert(exts.drop_last().len() == others.drop_last().len());
        assert(all_themes(others.drop_last()) == m && all_theme_pairs(others.drop_last()) == p) by {
            lemma_same_prefix_folds(exts.drop_last(), others.drop_last());
        }
        lemma_files_skip_unreadable(m, p, exts[n].name@, theme_files_of(exts[n]), k);
    }
    lemma_extension_folds(m, p, exts.last());
    lemma_extension_folds(m, p, others.last());
}

proof fn lemma_same_prefix_folds(exts: Seq<ExtensionListing>, others: Seq<ExtensionListing>)
    requires
        exts.len() == others.len(),
        forall|j: int|
            0 <= j < exts.len() ==> (#[trigger] others[j]).name@ == exts[j].name@ && theme_files_of(
                others[j],
            ) == theme_files_of(exts[j]),
    ensures
        all_themes(others) == all_themes(exts),
        all_theme_pairs(others) == all_theme_pairs(exts),
    decreases exts.len(),
{
    if exts.len() > 0 {
        let n = exts.len() - 1;
        assert(others[n].name@ == exts[n].name@);
        lemma_same_prefix_folds(exts.drop_last(), others.drop_last());
        let m = all_themes(exts.drop_last());
        let p = all_theme_pairs(exts.drop_last());
        lemma_extension_folds(m, p, exts.last());
        lemma_extension_folds(m, p, others.last());
    }
}

} // verus!
