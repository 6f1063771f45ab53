use vstd::prelude::*;
use crate::manifest::{LanguageMatcher, Manifest, ManifestView, texts_view};
use crate::paths::{
    copy_path, grammar_path, grammar_path_of, language_root, language_root_of, path_view,
    theme_path, theme_path_of,
};
use crate::scan::{ExtensionListing, RebuildError, scan_extensions, scan_ok, is_first_failure, scanned_from};
use crate::watch::{languages_to_reload, paths_view, reload_names};

verus! {

/// A language to hand to the language registry.
#[derive(Clone, Debug, PartialEq, Eq)]
pub struct LanguageRegistration {
    pub root: Vec<String>,
    pub name: String,
    pub matcher: LanguageMatcher,
}

/// What loading a manifest asks of the registries: grammars to register,
/// then languages, then theme files to load.
#[derive(Clone, Debug, PartialEq, Eq)]
pub struct LoadPlan {
    pub grammars: Vec<(String, Vec<String>)>,
    pub languages: Vec<LanguageRegistration>,
    pub theme_paths: Vec<Vec<String>>,
}

/// Owns the current manifest and where extensions and the manifest file live.
pub struct ExtensionStore {
    manifest: Manifest,
    extensions_dir: Vec<String>,
    manifest_path: Vec<String>,
}

fn copy_texts(v: &Vec<String>) -> (r: Vec<String>)
    ensures
        texts_view(r@) == texts_view(v@),
{
    copy_path(v)
}

fn copy_matcher(m: &LanguageMatcher) -> (r: LanguageMatcher)
    ensures
        r@ == m@,
{
    let first_line_pattern = match &m.first_line_pattern {
        Some(p) => Some(p.clone()),
        None => None,
    };
    LanguageMatcher { path_suffixes: copy_texts(&m.path_suffixes), first_line_pattern }
}

impl ExtensionStore {
    pub closed spec fn spec_manifest(&self) -> ManifestView {
        self.manifest@
    }

    pub closed spec fn spec_extensions_dir(&self) -> Seq<Seq<char>> {
        path_view(self.extensions_dir@)
    }

    pub closed spec fn spec_manifest_path(&self) -> Seq<Seq<char>> {
        path_view(self.manifest_path@)
    }

    /// A store that knows of no extension yet.
    pub fn new(extensions_dir: Vec<String>, manifest_path: Vec<String>) -> (r: ExtensionStore)
        ensures
            r.spec_manifest().grammars.len() == 0,
            r.spec_manifest().languages.len() == 0,
            r.spec_manifest().themes_by_name == Map::<Seq<char>, crate::manifest::ThemeLocationView>::empty(),
            r.spec_extensions_dir() == path_view(extensions_dir@),
            r.spec_manifest_path() == path_view(manifest_path@),
    {
        ExtensionStore { manifest: Manifest::empty(), extensions_dir, manifest_path }
    }

    /// The current manifest.
    pub fn manifest(&self) -> (r: &Manifest)
        ensures
            r@ == self.spec_manifest(),
    {
        &self.manifest
    }

    /// Where the extensions live.
    pub fn extensions_dir(&self) -> (r: &Vec<String>)
        ensures
            path_view(r@) == self.spec_extensions_dir(),
    {
        &self.extensions_dir
    }

    /// Where the manifest is persisted.
    pub fn manifest_path(&self) -> (r: &Vec<String>)
        ensures
            path_view(r@) == self.spec_manifest_path(),
    {
        &self.manifest_path
    }

    /// Takes `loaded` as the current manifest and says what to register:
    /// each grammar with its compiled file, each language with its root
    /// directory, and the file of each named theme.
    pub fn load(&mut self, loaded: Manifest) -> (plan: LoadPlan)
        ensures
            final(self).spec_manifest() == loaded@,
            final(self).spec_extensions_dir() == old(self).spec_extensions_dir(),
            final(self).spec_manifest_path() == old(self).spec_manifest_path(),
            plan.grammars@.len() == loaded@.grammars.len(),
            forall|i: int|
                0 <= i < plan.grammars@.len() ==> #[trigger] plan.grammars@[i].0@
                    == loaded@.grammars[i].grammar_name && path_view(plan.grammars@[i].1@)
                    == grammar_path_of(
                    old(self).spec_extensions_dir(),
                    loaded@.grammars[i].extension,
                    loaded@.grammars[i].grammar_name,
                ),
            plan.languages@.len() == loaded@.languages.len(),
            forall|i: int|
                0 <= i < plan.languages@.len() ==> path_view(#[trigger] plan.languages@[i].root@)
                    == language_root_of(
                    old(self).spec_extensions_dir(),
                    loaded@.languages[i].extension,
                    loaded@.languages[i].language_dir,
                ) && plan.languages@[i].name@ == loaded@.languages[i].name
                    && plan.languages@[i].matcher@ == loaded@.languages[i].matcher,
            plan.theme_paths@.len() == loaded.themes_by_name@.len(),
            forall|i: int|
                0 <= i < plan.theme_paths@.len() ==> path_view(#[trigger] plan.theme_paths@[i]@)
                    == theme_path_of(
                    old(self).spec_extensions_dir(),
                    loaded.themes_by_name@[i].1.extension@,
                    loaded.themes_by_name@[i].1.filename@,
                ),
    {
        let dir = &self.extensions_dir;
        let mut grammars: Vec<(String, Vec<String>)> = Vec::new();
        let mut i: usize = 0;
        while i < loaded.grammars.len()
            invariant
                i <= loaded.grammars.len(),
                grammars@.len() == i,
                forall|k: int|
                    0 <= k < i ==> #[trigger] grammars@[k].0@ == loaded@.grammars[k].grammar_name
                        && path_view(grammars@[k].1@) == grammar_path_of(
                        path_view(dir@),
                        loaded@.grammars[k].extension,
                        loaded@.grammars[k].grammar_name,
                    ),
            decreases loaded.grammars.len() - i,
        {
            let g = &loaded.grammars[i];
            let path = grammar_path(dir, g.extension.as_str(), g.grammar_name.as_str());
            grammars.push((g.grammar_name.clone(), path));
            i = i + 1;
        }
        let mut languages: Vec<LanguageRegistration> = Vec::new();
        let mut i: usize = 0;
        while i < loaded.languages.len()
            invariant
                i <= loaded.languages.len(),
                languages@.len() == i,
                forall|k: int|
                    0 <= k < i ==> path_view(#[trigger] languages@[k].root@) == language_root_of(
                        path_view(dir@),
                        loaded@.languages[k].extension,
                        loaded@.languages[k].language_dir,
                    ) && languages@[k].name@ == loaded@.languages[k].name
                        && languages@[k].matcher@ == loaded@.languages[k].matcher,
            decreases loaded.languages.len() - i,
        {
            let l = &loaded.languages[i];
            let root = language_root(dir, l.extension.as_str(), l.language_dir.as_str());
            languages.push(
                LanguageRegistration {
                    root,
                    name: l.name.clone(),
                    matcher: copy_matcher(&l.matcher),
                },
            );
            i = i + 1;
        }
        let mut theme_paths: Vec<Vec<String>> = Vec::new();
        let mut i: usize = 0;
        while i < loaded.themes_by_name.len()
            invariant
                i <= loaded.themes_by_name.len(),
                theme_paths@.len() == i,
                forall|k: int|
                    0 <= k < i ==> path_view(#[trigger] theme_paths@[k]@) == theme_path_of(
                        path_view(dir@),
                        loaded.themes_by_name@[k].1.extension@,
                        loaded.themes_by_name@[k].1.filename@,
                    ),
            decreases loaded.themes_by_name.len() - i,
        {
            let t = &loaded.themes_by_name[i].1;
            theme_paths.push(theme_path(dir, t.extension.as_str(), t.filename.as_str()));
            i = i + 1;
        }
        self.manifest = loaded;
        LoadPlan { grammars, languages, theme_paths }
    }

    /// Builds the manifest that a listing of the extensions directory
    /// describes; see `scan_extensions`. The store is not changed: the result
    /// is persisted first and then committed.
    pub fn rebuild_manifest(&self, listing: &Vec<ExtensionListing>) -> (r: Result<Manifest, RebuildError>)
        ensures
            r is Ok <==> scan_ok(listing@),
            r matches Ok(m) ==> scanned_from(m, listing@),
            r matches Err(err) ==> is_first_failure(listing@, err),
    {
        scan_extensions(listing)
    }

    /// Swaps in a rebuilt manifest once it has been persisted. Where
    /// persisting failed, the current manifest stays and the rebuild fails.
    pub fn commit_rebuild(&mut self, rebuilt: Manifest, persisted: bool) -> (r: Result<(), RebuildError>)
        ensures
            r is Ok <==> persisted,
            r matches Err(err) ==> err is Persist,
            final(self).spec_manifest() == (if persisted {
                rebuilt@
            } else {
                old(self).spec_manifest()
            }),
            final(self).spec_extensions_dir() == old(self).spec_extensions_dir(),
            final(self).spec_manifest_path() == old(self).spec_manifest_path(),
    {
        if persisted {
            self.manifest = rebuilt;
            Ok(())
        } else {
            Err(RebuildError::Persist)
        }
    }

    /// The names of the known languages that a batch of changed paths
    /// touches, each once.
    pub fn changed_languages(&self, changed: &Vec<Vec<String>>) -> (r: Vec<String>)
        ensures
            forall|n: Seq<char>|
                #[trigger] texts_view(r@).contains(n) <==> reload_names(
                    self.spec_manifest().languages,
                    self.spec_extensions_dir(),
                    paths_view(changed@),
                ).contains(n),
            texts_view(r@).no_duplicates(),
    {
        languages_to_reload(&self.manifest, &self.extensions_dir, changed)
    }
}

} // verus!
