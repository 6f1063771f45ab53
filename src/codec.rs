use vstd::prelude::*;
use crate::document::{DocValue, DocView, doc_view, field, lookup, json_document, parse_json, pattern_of, suffixes_of, text_list, all_texts, texts_of};
use crate::manifest::{
    GrammarManifestEntry, GrammarView, LanguageManifestEntry, LanguageMatcher, LanguageView,
    Manifest, ManifestView, MatcherView, ThemeLocation, ThemeLocationView, insert_theme,
    texts_view, theme_names_unique, themes_map, theme_pairs,
};
use crate::order::views;

verus! {

pub open spec fn text_of(d: DocValue) -> Option<Seq<char>> {
    match d {
        DocValue::Text(s) => Some(s@),
        _ => None,
    }
}

pub open spec fn field_text(entries: Seq<(String, DocValue)>, key: Seq<char>) -> Option<Seq<char>> {
    match lookup(entries, key) {
        Some(v) => text_of(v),
        None => None,
    }
}

/// A grammar entry read from its document form.
pub open spec fn grammar_of_doc(d: DocValue) -> Option<GrammarView> {
    match d {
        DocValue::Table(e) => match (field_text(e@, "extension"@), field_text(e@, "grammar_name"@)) {
            (Some(x), Some(n)) => Some(GrammarView { extension: x, grammar_name: n }),
            _ => None,
        },
        _ => None,
    }
}

/// A matcher read from its document form.
pub open spec fn matcher_of_doc(d: DocValue) -> Option<MatcherView> {
    match d {
        DocValue::Table(e) => match (
            suffixes_of(lookup(e@, "path_suffixes"@)),
            pattern_of(lookup(e@, "first_line_pattern"@)),
        ) {
            (Some(s), Some(p)) => Some(MatcherView { path_suffixes: s, first_line_pattern: p }),
            _ => None,
        },
        _ => None,
    }
}

/// A language entry read from its document form.
pub open spec fn language_of_doc(d: DocValue) -> Option<LanguageView> {
    match d {
        DocValue::Table(e) => match (
            field_text(e@, "extension"@),
            field_text(e@, "language_dir"@),
            field_text(e@, "name"@),
            lookup(e@, "matcher"@),
        ) {
            (Some(x), Some(dir), Some(n), Some(md)) => match matcher_of_doc(md) {
                Some(m) => Some(LanguageView { extension: x, language_dir: dir, name: n, matcher: m }),
                None => None,
            },
            _ => None,
        },
        _ => None,
    }
}

/// A theme location read from its document form.
pub open spec fn location_of_doc(d: DocValue) -> Option<ThemeLocationView> {
    match d {
        DocValue::Table(e) => match (field_text(e@, "extension"@), field_text(e@, "filename"@)) {
            (Some(x), Some(f)) => Some(ThemeLocationView { extension: x, filename: f }),
            _ => None,
        },
        _ => None,
    }
}

pub open spec fn all_some<A>(s: Seq<Option<A>>) -> bool {
    forall|i: int| 0 <= i < s.len() ==> (#[trigger] s[i]) is Some
}

pub open spec fn unwrap_all<A>(s: Seq<Option<A>>) -> Seq<A> {
    s.map_values(|o: Option<A>| o->Some_0)
}

/// Theme locations by name read from a table, a later entry overriding an
/// earlier one of the same name.
pub open spec fn themes_of_doc(e: Seq<(String, DocValue)>) -> Option<Map<Seq<char>, ThemeLocationView>>
    decreases e.len(),
{
    if e.len() == 0 {
        Some(Map::empty())
    } else {
        match (themes_of_doc(e.drop_last()), location_of_doc(e.last().1)) {
            (Some(m), Some(l)) => Some(m.insert(e.last().0@, l)),
            _ => None,
        }
    }
}

/// A manifest read from its document form.
pub open spec fn manifest_of_doc(d: DocValue) -> Option<ManifestView> {
    match d {
        DocValue::Table(e) => match (
            lookup(e@, "grammars"@),
            lookup(e@, "languages"@),
            lookup(e@, "themes_by_name"@),
        ) {
            (Some(DocValue::List(gs)), Some(DocValue::List(ls)), Some(DocValue::Table(ts))) => {
                let g = gs@.map_values(|x: DocValue| grammar_of_doc(x));
                let l = ls@.map_values(|x: DocValue| language_of_doc(x));
                if all_some(g) && all_some(l) && themes_of_doc(ts@) is Some {
                    Some(
                        ManifestView {
                            grammars: unwrap_all(g),
                            languages: unwrap_all(l),
                            themes_by_name: themes_of_doc(ts@)->Some_0,
                        },
                    )
                } else {
                    None
                }
            },
            _ => None,
        },
        _ => None,
    }
}

/// Reading the key at index `k` of a table whose keys before `k` all differ
/// from it finds the value at `k`.
proof fn lemma_lookup_at(s: Seq<(String, DocValue)>, k: int, key: Seq<char>)
    requires
        0 <= k < s.len(),
        s[k].0@ == key,
        forall|j: int| 0 <= j < k ==> (#[trigger] s[j]).0@.len() != key.len(),
    ensures
        lookup(s, key) == Some(s[k].1),
    decreases k,
{
    if k > 0 {
        assert(s[0].0@ != key);
        assert forall|j: int| 0 <= j < k - 1 implies (#[trigger] s.drop_first()[j]).0@.len() != key.len() by {
            assert(s.drop_first()[j] == s[j + 1]);
        }
        lemma_lookup_at(s.drop_first(), k - 1, key);
    }
}

/// The document written for a grammar.
pub open spec fn grammar_doc(g: GrammarView) -> DocView {
    DocView::Table(
        seq![("extension"@, DocView::Text(g.extension)), ("grammar_name"@, DocView::Text(g.grammar_name))],
    )
}

/// The document written for a matcher; an absent pattern is left out.
pub open spec fn matcher_doc(m: MatcherView) -> DocView {
    DocView::Table(
        seq![("path_suffixes"@, DocView::List(m.path_suffixes.map_values(|t: Seq<char>| DocView::Text(t))))]
            + match m.first_line_pattern {
            Some(p) => seq![("first_line_pattern"@, DocView::Text(p))],
            None => Seq::empty(),
        },
    )
}

/// The document written for a language.
pub open spec fn language_doc(l: LanguageView) -> DocView {
    DocView::Table(
        seq![
            ("extension"@, DocView::Text(l.extension)),
            ("language_dir"@, DocView::Text(l.language_dir)),
            ("name"@, DocView::Text(l.name)),
            ("matcher"@, matcher_doc(l.matcher)),
        ],
    )
}

/// The document written for a theme location.
pub open spec fn location_doc(t: ThemeLocationView) -> DocView {
    DocView::Table(
        seq![("extension"@, DocView::Text(t.extension)), ("filename"@, DocView::Text(t.filename))],
    )
}

/// The document written for a manifest with these grammars, languages and
/// theme entries.
pub open spec fn manifest_doc(
    grammars: Seq<GrammarView>,
    languages: Seq<LanguageView>,
    themes: Seq<(Seq<char>, ThemeLocationView)>,
) -> DocView {
    DocView::Table(
        seq![
            ("grammars"@, DocView::List(grammars.map_values(|g: GrammarView| grammar_doc(g)))),
            ("languages"@, DocView::List(languages.map_values(|l: LanguageView| language_doc(l)))),
            (
                "themes_by_name"@,
                DocView::Table(
                    themes.map_values(
                        |p: (Seq<char>, ThemeLocationView)| (p.0, location_doc(p.1)),
                    ),
                ),
            ),
        ],
    )
}

/// The document written for `m`.
pub open spec fn manifest_doc_of(m: Manifest) -> DocView {
    manifest_doc(m@.grammars, m@.languages, theme_pairs(m.themes_by_name@))
}

/// The text persisted for `m`.
pub open spec fn persisted_text(m: Manifest) -> Seq<char> {
    json_text_of(manifest_doc_of(m))
}

fn text_field(key: &str, value: &String) -> (r: (String, DocValue))
    ensures
        r.0@ == key@,
        r.1 == DocValue::Text(*value),
        text_of(r.1) == Some(value@),
        doc_view(r.1) == DocView::Text(value@),
{
    (key.to_owned(), DocValue::Text(value.clone()))
}

fn grammar_to_doc(g: &GrammarManifestEntry) -> (r: DocValue)
    ensures
        grammar_of_doc(r) == Some(g@),
        doc_view(r) == grammar_doc(g@),
{
    let mut e: Vec<(String, DocValue)> = Vec::new();
    e.push(text_field("extension", &g.extension));
    e.push(text_field("grammar_name", &g.grammar_name));
    proof {
        reveal_strlit("extension");
        reveal_strlit("grammar_name");
        lemma_lookup_at(e@, 0, "extension"@);
        lemma_lookup_at(e@, 1, "grammar_name"@);
    }
    let r = DocValue::Table(e);
    proof {
        assert(doc_view(r)->Table_0 =~= grammar_doc(g@)->Table_0);
    }
    r
}

fn matcher_to_doc(m: &LanguageMatcher) -> (r: DocValue)
    ensures
        matcher_of_doc(r) == Some(m@),
        doc_view(r) == matcher_doc(m@),
{
    let mut items: Vec<DocValue> = Vec::new();
    let mut i: usize = 0;
    while i < m.path_suffixes.len()
        invariant
            i <= m.path_suffixes.len(),
            items@.len() == i,
            forall|k: int| 0 <= k < i ==> (#[trigger] items@[k]) is Text,
            forall|k: int| 0 <= k < i ==> (#[trigger] items@[k])->Text_0@ == m.path_suffixes@[k]@,
            forall|k: int| 0 <= k < i ==> doc_view(#[trigger] items@[k]) == DocView::Text(m.path_suffixes@[k]@),
        decreases m.path_suffixes.len() - i,
    {
        items.push(DocValue::Text(m.path_suffixes[i].clone()));
        i = i + 1;
    }
    proof {
        assert(texts_of(items@) =~= texts_view(m.path_suffixes@));
        assert(doc_view(DocValue::List(items))->List_0 =~= texts_view(m.path_suffixes@).map_values(
            |t: Seq<char>| DocView::Text(t),
        ));
    }
    let mut e: Vec<(String, DocValue)> = Vec::new();
    e.push(("path_suffixes".to_owned(), DocValue::List(items)));
    if let Some(p) = &m.first_line_pattern {
        e.push(text_field("first_line_pattern", p));
    }
    proof {
        reveal_strlit("path_suffixes");
        reveal_strlit("first_line_pattern");
        lemma_lookup_at(e@, 0, "path_suffixes"@);
        assert(all_texts(e@[0].1->List_0@));
        assert(suffixes_of(lookup(e@, "path_suffixes"@)) == Some(texts_view(m.path_suffixes@)));
        if e@.len() == 2 {
            lemma_lookup_at(e@, 1, "first_line_pattern"@);
        } else {
            assert(e@[0].0@.len() != "first_line_pattern"@.len());
            assert(e@.drop_first().len() == 0);
            assert(e@[0].0@ != "first_line_pattern"@);
            assert(lookup(e@.drop_first(), "first_line_pattern"@) is None);
            assert(lookup(e@, "first_line_pattern"@) is None);
        }
        assert(pattern_of(lookup(e@, "first_line_pattern"@)) == Some(m@.first_line_pattern));
    }
    let r = DocValue::Table(e);
    proof {
        assert(doc_view(r)->Table_0 =~= matcher_doc(m@)->Table_0);
    }
    r
}

fn language_to_doc(l: &LanguageManifestEntry) -> (r: DocValue)
    ensures
        language_of_doc(r) == Some(l@),
        doc_view(r) == language_doc(l@),
{
    let mut e: Vec<(String, DocValue)> = Vec::new();
    e.push(text_field("extension", &l.extension));
    e.push(text_field("language_dir", &l.language_dir));
    e.push(text_field("name", &l.name));
    e.push(("matcher".to_owned(), matcher_to_doc(&l.matcher)));
    proof {
        reveal_strlit("extension");
        reveal_strlit("language_dir");
        reveal_strlit("name");
        reveal_strlit("matcher");
        lemma_lookup_at(e@, 0, "extension"@);
        lemma_lookup_at(e@, 1, "language_dir"@);
        lemma_lookup_at(e@, 2, "name"@);
        lemma_lookup_at(e@, 3, "matcher"@);
    }
    let r = DocValue::Table(e);
    proof {
        assert(doc_view(r)->Table_0 =~= language_doc(l@)->Table_0);
    }
    r
}

fn location_to_doc(t: &ThemeLocation) -> (r: DocValue)
    ensures
        location_of_doc(r) == Some(t@),
        doc_view(r) == location_doc(t@),
{
    let mut e: Vec<(String, DocValue)> = Vec::new();
    e.push(text_field("extension", &t.extension));
    e.push(text_field("filename", &t.filename));
    proof {
        reveal_strlit("extension");
        reveal_strlit("filename");
        lemma_lookup_at(e@, 0, "extension"@);
        lemma_lookup_at(e@, 1, "filename"@);
    }
    let r = DocValue::Table(e);
    proof {
        assert(doc_view(r)->Table_0 =~= location_doc(t@)->Table_0);
    }
    r
}

/// The document form in which a manifest is persisted; reading it back with
/// `manifest_from_doc` gives the same manifest.
pub fn manifest_to_doc(m: &Manifest) -> (r: DocValue)
    requires
        theme_names_unique(m.themes_by_name@),
    ensures
        manifest_of_doc(r) == Some(m@),
        doc_view(r) == manifest_doc_of(*m),
{
    let mut gs: Vec<DocValue> = Vec::new();
    let mut i: usize = 0;
    while i < m.grammars.len()
        invariant
            i <= m.grammars.len(),
            gs@.len() == i,
            forall|k: int| 0 <= k < i ==> grammar_of_doc(#[trigger] gs@[k]) == Some(m.grammars@[k]@),
            forall|k: int| 0 <= k < i ==> doc_view(#[trigger] gs@[k]) == grammar_doc(m.grammars@[k]@),
        decreases m.grammars.len() - i,
    {
        gs.push(grammar_to_doc(&m.grammars[i]));
        i = i + 1;
    }
    let mut ls: Vec<DocValue> = Vec::new();
    let mut i: usize = 0;
    while i < m.languages.len()
        invariant
            i <= m.languages.len(),
            ls@.len() == i,
            forall|k: int| 0 <= k < i ==> language_of_doc(#[trigger] ls@[k]) == Some(m.languages@[k]@),
            forall|k: int| 0 <= k < i ==> doc_view(#[trigger] ls@[k]) == language_doc(m.languages@[k]@),
        decreases m.languages.len() - i,
    {
        ls.push(language_to_doc(&m.languages[i]));
        i = i + 1;
    }
    let mut ts: Vec<(String, DocValue)> = Vec::new();
    let mut i: usize = 0;
    while i < m.themes_by_name.len()
        invariant
            i <= m.themes_by_name.len(),
            themes_of_doc(ts@) == Some(themes_map(m.themes_by_name@.take(i as int))),
            ts@.len() == i,
            forall|k: int|
                0 <= k < i ==> (#[trigger] ts@[k]).0@ == m.themes_by_name@[k].0@ && doc_view(ts@[k].1)
                    == location_doc(m.themes_by_name@[k].1@),
        decreases m.themes_by_name.len() - i,
    {
        let ghost prev = ts@;
        ts.push((m.themes_by_name[i].0.clone(), location_to_doc(&m.themes_by_name[i].1)));
        proof {
            assert(ts@.drop_last() =~= prev);
            assert(m.themes_by_name@.take(i + 1).drop_last() =~= m.themes_by_name@.take(i as int));
        }
        i = i + 1;
    }
    proof {
        assert(m.themes_by_name@.take(m.themes_by_name@.len() as int) =~= m.themes_by_name@);
        let g = gs@.map_values(|x: DocValue| grammar_of_doc(x));
        let l = ls@.map_values(|x: DocValue| language_of_doc(x));
        assert(unwrap_all(g) =~= views(m.grammars@));
        assert(unwrap_all(l) =~= views(m.languages@));
        assert(doc_view(DocValue::List(gs))->List_0 =~= views(m.grammars@).map_values(
            |g: GrammarView| grammar_doc(g),
        ));
        assert(doc_view(DocValue::List(ls))->List_0 =~= views(m.languages@).map_values(
            |l: LanguageView| language_doc(l),
        ));
        assert(doc_view(DocValue::Table(ts))->Table_0 =~= theme_pairs(m.themes_by_name@).map_values(
            |p: (Seq<char>, ThemeLocationView)| (p.0, location_doc(p.1)),
        ));
    }
    let mut e: Vec<(String, DocValue)> = Vec::new();
    e.push(("grammars".to_owned(), DocValue::List(gs)));
    e.push(("languages".to_owned(), DocValue::List(ls)));
    e.push(("themes_by_name".to_owned(), DocValue::Table(ts)));
    proof {
        reveal_strlit("grammars");
        reveal_strlit("languages");
        reveal_strlit("themes_by_name");
        lemma_lookup_at(e@, 0, "grammars"@);
        lemma_lookup_at(e@, 1, "languages"@);
        lemma_lookup_at(e@, 2, "themes_by_name"@);
    }
    let r = DocValue::Table(e);
    proof {
        assert(doc_view(r)->Table_0 =~= manifest_doc_of(*m)->Table_0);
    }
    r
}

fn text_value(d: Option<&DocValue>) -> (r: Option<String>)
    ensures
        r is Some <==> (d matches Some(v) && text_of(*v) is Some),
        r matches Some(t) ==> d matches Some(v) && text_of(*v) == Some(t@),
{
    match d {
        Some(DocValue::Text(t)) => Some(t.clone()),
        _ => None,
    }
}

fn grammar_from_doc(d: &DocValue) -> (r: Option<GrammarManifestEntry>)
    ensures
        r is Some <==> grammar_of_doc(*d) is Some,
        r matches Some(g) ==> grammar_of_doc(*d) == Some(g@),
{
    match d {
        DocValue::Table(e) => match (text_value(field(e, "extension")), text_value(field(e, "grammar_name"))) {
            (Some(extension), Some(grammar_name)) => Some(GrammarManifestEntry { extension, grammar_name }),
            _ => None,
        },
        _ => None,
    }
}

fn matcher_from_doc(d: &DocValue) -> (r: Option<LanguageMatcher>)
    ensures
        r is Some <==> matcher_of_doc(*d) is Some,
        r matches Some(m) ==> matcher_of_doc(*d) == Some(m@),
{
    let e = match d {
        DocValue::Table(e) => e,
        _ => {
            return None;
        },
    };
    let path_suffixes = match field(e, "path_suffixes") {
        None => Vec::new(),
        Some(v) => match text_list(v) {
            Some(list) => list,
            None => {
                return None;
            },
        },
    };
    let first_line_pattern = match field(e, "first_line_pattern") {
        None => None,
        Some(DocValue::Text(p)) => Some(p.clone()),
        Some(_) => {
            return None;
        },
    };
    let r = LanguageMatcher { path_suffixes, first_line_pattern };
    proof {
        assert(texts_view(r.path_suffixes@) =~= suffixes_of(lookup(e@, "path_suffixes"@))->Some_0);
    }
    Some(r)
}

fn language_from_doc(d: &DocValue) -> (r: Option<LanguageManifestEntry>)
    ensures
        r is Some <==> language_of_doc(*d) is Some,
        r matches Some(l) ==> language_of_doc(*d) == Some(l@),
{
    let e = match d {
        DocValue::Table(e) => e,
        _ => {
            return None;
        },
    };
    let extension = text_value(field(e, "extension"));
    let language_dir = text_value(field(e, "language_dir"));
    let name = text_value(field(e, "name"));
    let matcher = match field(e, "matcher") {
        Some(md) => matcher_from_doc(md),
        None => None,
    };
    match (extension, language_dir, name, matcher) {
        (Some(extension), Some(language_dir), Some(name), Some(matcher)) => Some(
            LanguageManifestEntry { extension, language_dir, name, matcher },
        ),
        _ => None,
    }
}

fn location_from_doc(d: &DocValue) -> (r: Option<ThemeLocation>)
    ensures
        r is Some <==> location_of_doc(*d) is Some,
        r matches Some(t) ==> location_of_doc(*d) == Some(t@),
{
    match d {
        DocValue::Table(e) => match (text_value(field(e, "extension")), text_value(field(e, "filename"))) {
            (Some(extension), Some(filename)) => Some(ThemeLocation { extension, filename }),
            _ => None,
        },
        _ => None,
    }
}

/// Reads a manifest back from its document form: a table with a list of
/// `grammars`, a list of `languages` and a table `themes_by_name`.
pub fn manifest_from_doc(d: &DocValue) -> (r: Option<Manifest>)
    ensures
        r is Some <==> manifest_of_doc(*d) is Some,
        r matches Some(m) ==> manifest_of_doc(*d) == Some(m@) && theme_names_unique(
            m.themes_by_name@,
        ),
{
    let e = match d {
        DocValue::Table(e) => e,
        _ => {
            return None;
        },
    };
    let (gs, ls, ts) = match (field(e, "grammars"), field(e, "languages"), field(e, "themes_by_name")) {
        (Some(DocValue::List(gs)), Some(DocValue::List(ls)), Some(DocValue::Table(ts))) => (gs, ls, ts),
        _ => {
            return None;
        },
    };
    let ghost g = gs@.map_values(|x: DocValue| grammar_of_doc(x));
    let ghost l = ls@.map_values(|x: DocValue| language_of_doc(x));
    let mut grammars: Vec<GrammarManifestEntry> = Vec::new();
    let mut i: usize = 0;
    while i < gs.len()
        invariant
            *d == DocValue::Table(*e),
            lookup(e@, "grammars"@) == Some(DocValue::List(*gs)),
            lookup(e@, "languages"@) == Some(DocValue::List(*ls)),
            lookup(e@, "themes_by_name"@) == Some(DocValue::Table(*ts)),
            g == gs@.map_values(|x: DocValue| grammar_of_doc(x)),
            i <= gs.len(),
            grammars@.len() == i,
            forall|k: int| 0 <= k < i ==> (#[trigger] g[k]) == Some(grammars@[k]@),
        decreases gs.len() - i,
    {
        match grammar_from_doc(&gs[i]) {
            Some(x) => grammars.push(x),
            None => {
                proof {
                    assert(g[i as int] is None);
                    assert(!all_some(g));
                }
                return None;
            },
        }
        i = i + 1;
    }
    proof {
        assert(all_some(g));
    }
    let mut languages: Vec<LanguageManifestEntry> = Vec::new();
    let mut i: usize = 0;
    while i < ls.len()
        invariant
            *d == DocValue::Table(*e),
            lookup(e@, "grammars"@) == Some(DocValue::List(*gs)),
            lookup(e@, "languages"@) == Some(DocValue::List(*ls)),
            lookup(e@, "themes_by_name"@) == Some(DocValue::Table(*ts)),
            g == gs@.map_values(|x: DocValue| grammar_of_doc(x)),
            all_some(g),
            l == ls@.map_values(|x: DocValue| language_of_doc(x)),
            i <= ls.len(),
            languages@.len() == i,
            forall|k: int| 0 <= k < i ==> (#[trigger] l[k]) == Some(languages@[k]@),
        decreases ls.len() - i,
    {
        match language_from_doc(&ls[i]) {
            Some(x) => languages.push(x),
            None => {
                proof {
                    assert(l[i as int] is None);
                    assert(!all_some(l));
                }
                return None;
            },
        }
        i = i + 1;
    }
    proof {
        assert(all_some(l));
        assert(ts@.take(0) =~= Seq::<(String, DocValue)>::empty());
    }
    let mut themes: Vec<(String, ThemeLocation)> = Vec::new();
    let mut i: usize = 0;
    while i < ts.len()
        invariant
            *d == DocValue::Table(*e),
            lookup(e@, "grammars"@) == Some(DocValue::List(*gs)),
            lookup(e@, "languages"@) == Some(DocValue::List(*ls)),
            lookup(e@, "themes_by_name"@) == Some(DocValue::Table(*ts)),
            g == gs@.map_values(|x: DocValue| grammar_of_doc(x)),
            l == ls@.map_values(|x: DocValue| language_of_doc(x)),
            all_some(g),
            all_some(l),
            i <= ts.len(),
            theme_names_unique(themes@),
            themes_of_doc(ts@.take(i as int)) == Some(themes_map(themes@)),
        decreases ts.len() - i,
    {
        proof {
            assert(ts@.take(i + 1).drop_last() =~= ts@.take(i as int));
        }
        match location_from_doc(&ts[i].1) {
            Some(loc) => {
                insert_theme(&mut themes, ts[i].0.clone(), loc);
                proof {
                    assert(ts@.take(i + 1).last() == ts@[i as int]);
                }
            },
            None => {
                proof {
                    lemma_themes_prefix_fails(ts@, i as int);
                    assert(themes_of_doc(ts@) is None);
                }
                return None;
            },
        }
        i = i + 1;
    }
    proof {
        assert(ts@.take(ts@.len() as int) =~= ts@);
        assert(unwrap_all(g) =~= views(grammars@));
        assert(unwrap_all(l) =~= views(languages@));
        assert(all_some(g));
        assert(all_some(l));
    }
    Some(Manifest { grammars, languages, themes_by_name: themes })
}

/// A table whose entry at `i` is no theme location reads as no theme map.
proof fn lemma_themes_prefix_fails(e: Seq<(String, DocValue)>, i: int)
    requires
        0 <= i < e.len(),
        location_of_doc(e[i].1) is None,
    ensures
        themes_of_doc(e) is None,
    decreases e.len(),
{
    if i < e.len() - 1 {
        lemma_themes_prefix_fails(e.drop_last(), i);
    }
}

/// What `serde_json::to_string_pretty` writes for a document.
pub uninterp spec fn json_text_of(d: DocView) -> Seq<char>;

/// Relies on the variants of `serde_json::Value`: each variant of `DocValue`
/// is moved into the one that holds the same data; `Other` becomes null.
#[verifier::external_body]
fn json_from_doc(d: &DocValue) -> serde_json::Value {
    match d {
        DocValue::Text(s) => serde_json::Value::String(s.clone()),
        DocValue::Integer(i) => serde_json::Value::from(*i),
        DocValue::Boolean(b) => serde_json::Value::Bool(*b),
        DocValue::List(items) => serde_json::Value::Array(items.iter().map(json_from_doc).collect()),
        DocValue::Table(e) => serde_json::Value::Object(e.iter().map(|(k, v)| (k.clone(), json_from_doc(v))).collect()),
        DocValue::Other => serde_json::Value::Null,
    }
}

/// Relies on `serde_json::to_string_pretty` on a `serde_json::Value`: the
/// indented JSON text of the document. It does not fail on a `Value`, whose
/// serialization never errs and whose map keys are strings.
#[verifier::external_body]
fn json_pretty(d: &DocValue) -> (r: String)
    ensures
        r@ == json_text_of(doc_view(*d)),
{
    serde_json::to_string_pretty(&json_from_doc(d)).unwrap_or_default()
}

/// The text in which a manifest is persisted: the indented JSON of its
/// document form.
pub fn manifest_to_json(m: &Manifest) -> (r: String)
    requires
        theme_names_unique(m.themes_by_name@),
    ensures
        r@ == persisted_text(*m),
{
    let d = manifest_to_doc(m);
    json_pretty(&d)
}

/// Reads a persisted manifest; `None` where the text is not JSON or does not
/// describe a manifest.
pub fn manifest_from_json(text: &str) -> (r: Option<Manifest>)
    ensures
        r is Some <==> (json_document(text@) matches Some(d) && manifest_of_doc(d) is Some),
        r matches Some(m) ==> json_document(text@) matches Some(d) && manifest_of_doc(d) == Some(
            m@,
        ) && theme_names_unique(m.themes_by_name@),
{
    match parse_json(text) {
        Some(d) => manifest_from_doc(&d),
        None => None,
    }
}

} // verus!
