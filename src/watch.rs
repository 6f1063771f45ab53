use vstd::prelude::*;
use crate::manifest::{LanguageView, Manifest, texts_view};
use crate::paths::{has_prefix, language_root, language_root_of, path_view, starts_with_path};
use crate::text::eq_text;

verus! {

/// Whether one of the changed paths is the root of language `l`, or lies
/// under it.
pub open spec fn language_touched(
    l: LanguageView,
    dir: Seq<Seq<char>>,
    changed: Seq<Seq<Seq<char>>>,
) -> bool {
    exists|e: int|
        0 <= e < changed.len() && #[trigger] has_prefix(
            changed[e],
            language_root_of(dir, l.extension, l.language_dir),
        )
}

/// Names of the languages among `langs[..upto]` that a change touched.
pub open spec fn reload_names_upto(
    langs: Seq<LanguageView>,
    dir: Seq<Seq<char>>,
    changed: Seq<Seq<Seq<char>>>,
    upto: int,
) -> Set<Seq<char>> {
    Set::new(
        |n: Seq<char>|
            exists|l: int|
                0 <= l < upto && #[trigger] langs[l].name == n && language_touched(
                    langs[l],
                    dir,
                    changed,
                ),
    )
}

/// Names of the languages to reload after a batch of changed paths.
pub open spec fn reload_names(
    langs: Seq<LanguageView>,
    dir: Seq<Seq<char>>,
    changed: Seq<Seq<Seq<char>>>,
) -> Set<Seq<char>> {
    reload_names_upto(langs, dir, changed, langs.len() as int)
}

pub open spec fn paths_view(changed: Seq<Vec<String>>) -> Seq<Seq<Seq<char>>> {
    changed.map_values(|p: Vec<String>| path_view(p@))
}

/// Whether `names` holds `name`.
pub fn contains_text(names: &Vec<String>, name: &str) -> (r: bool)
    ensures
        r == texts_view(names@).contains(name@),
{
    let mut i: usize = 0;
    while i < names.len()
        invariant
            i <= names.len(),
            forall|k: int| 0 <= k < i ==> names@[k]@ != name@,
        decreases names.len() - i,
    {
        if eq_text(names[i].as_str(), name) {
            proof {
                assert(texts_view(names@)[i as int] == name@);
            }
            return true;
        }
        i = i + 1;
    }
    false
}

/// Whether one of `changed` lies at or under `root`.
fn any_under(changed: &Vec<Vec<String>>, root: &Vec<String>) -> (r: bool)
    ensures
        r == exists|e: int|
            0 <= e < changed@.len() && #[trigger] has_prefix(
                paths_view(changed@)[e],
                path_view(root@),
            ),
{
    let mut i: usize = 0;
    while i < changed.len()
        invariant
            i <= changed.len(),
            forall|e: int|
                0 <= e < i ==> !#[trigger] has_prefix(paths_view(changed@)[e], path_view(root@)),
        decreases changed.len() - i,
    {
        if starts_with_path(&changed[i], root) {
            proof {
                assert(has_prefix(paths_view(changed@)[i as int], path_view(root@)));
            }
            return true;
        }
        i = i + 1;
    }
    false
}

/// The names of the languages of `manifest` that a batch of changed paths
/// touches, each once.
pub fn languages_to_reload(
    manifest: &Manifest,
    extensions_dir: &Vec<String>,
    changed: &Vec<Vec<String>>,
) -> (r: Vec<String>)
    ensures
        forall|n: Seq<char>|
            #[trigger] texts_view(r@).contains(n) <==> reload_names(
                manifest@.languages,
                path_view(extensions_dir@),
                paths_view(changed@),
            ).contains(n),
        texts_view(r@).no_duplicates(),
{
    let ghost langs = manifest@.languages;
    let ghost dir = path_view(extensions_dir@);
    let ghost ch = paths_view(changed@);
    let mut names: Vec<String> = Vec::new();
    let mut i: usize = 0;
    while i < manifest.languages.len()
        invariant
            langs == manifest@.languages,
            dir == path_view(extensions_dir@),
            ch == paths_view(changed@),
            i <= manifest.languages.len(),
            forall|n: Seq<char>|
                #[trigger] texts_view(names@).contains(n) <==> reload_names_upto(
                    langs,
                    dir,
                    ch,
                    i as int,
                ).contains(n),
            texts_view(names@).no_duplicates(),
        decreases manifest.languages.len() - i,
    {
        let language = &manifest.languages[i];
        let root = language_root(
            extensions_dir,
            language.extension.as_str(),
            language.language_dir.as_str(),
        );
        let touched = any_under(changed, &root);
        proof {
            assert(langs[i as int] == language@);
            assert(path_view(root@) == language_root_of(
                dir,
                langs[i as int].extension,
                langs[i as int].language_dir,
            ));
            if touched {
                let e = choose|e: int|
                    0 <= e < changed@.len() && #[trigger] has_prefix(
                        paths_view(changed@)[e],
                        path_view(root@),
                    );
                assert(has_prefix(ch[e], path_view(root@)));
            }
            if language_touched(langs[i as int], dir, ch) {
                let e = choose|e: int|
                    0 <= e < ch.len() && #[trigger] has_prefix(
                        ch[e],
                        language_root_of(dir, langs[i as int].extension, langs[i as int].language_dir),
                    );
                assert(has_prefix(paths_view(changed@)[e], path_view(root@)));
            }
            assert(touched == language_touched(langs[i as int], dir, ch));
        }
        let ghost prev = names@;
        let pushed = touched && !contains_text(&names, language.name.as_str());
        if pushed {
            names.push(language.name.clone());
            proof {
                assert(texts_view(names@) =~= texts_view(prev).push(language.name@));
            }
        }
        proof {
            let s_new = reload_names_upto(langs, dir, ch, i + 1);
            let s_old = reload_names_upto(langs, dir, ch, i as int);
            assert forall|n: Seq<char>| s_new.contains(n) <==> (s_old.contains(n) || (touched && n
                == language.name@)) by {
                if s_new.contains(n) && !s_old.contains(n) {
                    let l = choose|l: int|
                        0 <= l < i + 1 && #[trigger] langs[l].name == n && language_touched(
                            langs[l],
                            dir,
                            ch,
                        );
                    if l < i {
                        assert(s_old.contains(n));
                    }
                }
                if s_old.contains(n) {
                    let l = choose|l: int|
                        0 <= l < i && #[trigger] langs[l].name == n && language_touched(
                            langs[l],
                            dir,
                            ch,
                        );
                    assert(s_new.contains(n));
                }
                if touched && n == language.name@ {
                    assert(langs[i as int].name == n);
                    assert(s_new.contains(n));
                }
            }
            assert forall|n: Seq<char>| #[trigger] texts_view(names@).contains(n) <==> (texts_view(
                prev,
            ).contains(n) || (pushed && n == language.name@)) by {
                if pushed {
                    if texts_view(names@).contains(n) && !texts_view(prev).contains(n) {
                        let k = choose|k: int|
                            0 <= k < texts_view(names@).len() && texts_view(names@)[k] == n;
                        assert(k == prev.len());
                    }
                    if texts_view(prev).contains(n) {
                        let k = choose|k: int|
                            0 <= k < texts_view(prev).len() && texts_view(prev)[k] == n;
                        assert(texts_view(names@)[k] == n);
                    }
                    assert(texts_view(names@)[prev.len() as int] == language.name@);
                }
            }
            assert forall|n: Seq<char>| #[trigger] texts_view(names@).contains(n) <==> s_new.contains(n) by {
                assert(texts_view(prev).contains(n) <==> s_old.contains(n));
            }
        }
        i = i + 1;
    }
    names
}

/// A change at or under a language's root puts that language's name among
/// those to reload; a batch with no path under any language root reloads
/// nothing.
pub proof fn lemma_change_mapping(
    langs: Seq<LanguageView>,
    dir: Seq<Seq<char>>,
    changed: Seq<Seq<Seq<char>>>,
)
    ensures
        forall|l: int, e: int|
            0 <= l < langs.len() && 0 <= e < changed.len() && #[trigger] has_prefix(
                changed[e],
                language_root_of(dir, langs[l].extension, langs[l].language_dir),
            ) ==> reload_names(langs, dir, changed).contains(langs[l].name),
        (forall|l: int, e: int|
            0 <= l < langs.len() && 0 <= e < changed.len() ==> !#[trigger] has_prefix(
                changed[e],
                language_root_of(dir, langs[l].extension, langs[l].language_dir),
            )) ==> reload_names(langs, dir, changed) == Set::<Seq<char>>::empty(),
{
    assert forall|l: int, e: int|
        0 <= l < langs.len() && 0 <= e < changed.len() && #[trigger] has_prefix(
            changed[e],
            language_root_of(dir, langs[l].extension, langs[l].language_dir),
        ) implies reload_names(langs, dir, changed).contains(langs[l].name) by {
        assert(language_touched(langs[l], dir, changed));
    }
    if forall|l: int, e: int|
        0 <= l < langs.len() && 0 <= e < changed.len() ==> !has_prefix(
            changed[e],
            language_root_of(dir, langs[l].extension, langs[l].language_dir),
        ) {
        assert(reload_names(langs, dir, changed) =~= Set::<Seq<char>>::empty());
    }
}

} // verus!
