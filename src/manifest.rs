use vstd::prelude::*;
use crate::order::{CanonicalOrder, views, is_sorted};
use crate::text::{text_le, text_lt, le_text, eq_text, lemma_text_le_total, lemma_text_le_trans, lemma_text_le_antisym};

verus! {

/// A compiled grammar contributed by an extension.
#[derive(Clone, Debug, PartialEq, Eq)]
pub struct GrammarManifestEntry {
    pub extension: String,
    pub grammar_name: String,
}

/// File-association rules of a language, handed on to the language registry.
#[derive(Clone, Debug, PartialEq, Eq)]
pub struct LanguageMatcher {
    pub path_suffixes: Vec<String>,
    pub first_line_pattern: Option<String>,
}

/// A language contributed by an extension, found under
/// `<extension>/languages/<language_dir>`.
#[derive(Clone, Debug, PartialEq, Eq)]
pub struct LanguageManifestEntry {
    pub extension: String,
    pub language_dir: String,
    pub name: String,
    pub matcher: LanguageMatcher,
}

/// The file that defines a named theme.
#[derive(Clone, Debug, PartialEq, Eq)]
pub struct ThemeLocation {
    pub extension: String,
    pub filename: String,
}

/// Index of every grammar, language and theme known from the extensions.
#[derive(Clone, Debug, PartialEq, Eq)]
pub struct Manifest {
    pub grammars: Vec<GrammarManifestEntry>,
    pub languages: Vec<LanguageManifestEntry>,
    /// Theme name and location; each name stands at most once.
    pub themes_by_name: Vec<(String, ThemeLocation)>,
}

pub struct GrammarView {
    pub extension: Seq<char>,
    pub grammar_name: Seq<char>,
}

pub struct MatcherView {
    pub path_suffixes: Seq<Seq<char>>,
    pub first_line_pattern: Option<Seq<char>>,
}

pub struct LanguageView {
    pub extension: Seq<char>,
    pub language_dir: Seq<char>,
    pub name: Seq<char>,
    pub matcher: MatcherView,
}

pub struct ThemeLocationView {
    pub extension: Seq<char>,
    pub filename: Seq<char>,
}

pub struct ManifestView {
    pub grammars: Seq<GrammarView>,
    pub languages: Seq<LanguageView>,
    pub themes_by_name: Map<Seq<char>, ThemeLocationView>,
}

pub open spec fn texts_view(v: Seq<String>) -> Seq<Seq<char>> {
    v.map_values(|s: String| s@)
}

pub open spec fn opt_text_view(o: Option<String>) -> Option<Seq<char>> {
    match o {
        Some(s) => Some(s@),
        None => None,
    }
}

impl View for GrammarManifestEntry {
    type V = GrammarView;

    open spec fn view(&self) -> GrammarView {
        GrammarView { extension: self.extension@, grammar_name: self.grammar_name@ }
    }
}

impl View for LanguageMatcher {
    type V = MatcherView;

    open spec fn view(&self) -> MatcherView {
        MatcherView {
            path_suffixes: texts_view(self.path_suffixes@),
            first_line_pattern: opt_text_view(self.first_line_pattern),
        }
    }
}

impl View for LanguageManifestEntry {
    type V = LanguageView;

    open spec fn view(&self) -> LanguageView {
        LanguageView {
            extension: self.extension@,
            language_dir: self.language_dir@,
            name: self.name@,
            matcher: self.matcher@,
        }
    }
}

impl View for ThemeLocation {
    type V = ThemeLocationView;

    open spec fn view(&self) -> ThemeLocationView {
        ThemeLocationView { extension: self.extension@, filename: self.filename@ }
    }
}

/// The map that a list of (name, location) pairs with distinct names denotes.
pub open spec fn themes_map(s: Seq<(String, ThemeLocation)>) -> Map<Seq<char>, ThemeLocationView>
    decreases s.len(),
{
    if s.len() == 0 {
        Map::empty()
    } else {
        themes_map(s.drop_last()).insert(s.last().0@, s.last().1@)
    }
}

pub open spec fn theme_names_unique(s: Seq<(String, ThemeLocation)>) -> bool {
    forall|i: int, j: int| 0 <= i < j < s.len() ==> s[i].0@ != s[j].0@
}

impl View for Manifest {
    type V = ManifestView;

    open spec fn view(&self) -> ManifestView {
        ManifestView {
            grammars: views(self.grammars@),
            languages: views(self.languages@),
            themes_by_name: themes_map(self.themes_by_name@),
        }
    }
}

/// Grammars by extension, then by name.
pub open spec fn grammar_le(a: GrammarView, b: GrammarView) -> bool {
    text_lt(a.extension, b.extension) || (a.extension == b.extension && text_le(
        a.grammar_name,
        b.grammar_name,
    ))
}

/// Lexicographic order on sequences of texts.
pub open spec fn texts_le(a: Seq<Seq<char>>, b: Seq<Seq<char>>) -> bool
    decreases a.len(),
{
    if a.len() == 0 {
        true
    } else if b.len() == 0 {
        false
    } else if text_lt(a[0], b[0]) {
        true
    } else if a[0] != b[0] {
        false
    } else {
        texts_le(a.drop_first(), b.drop_first())
    }
}

/// An absent text comes first.
pub open spec fn opt_text_le(a: Option<Seq<char>>, b: Option<Seq<char>>) -> bool {
    match (a, b) {
        (None, _) => true,
        (Some(_), None) => false,
        (Some(x), Some(y)) => text_le(x, y),
    }
}

/// Matchers by suffixes, then by first-line pattern.
pub open spec fn matcher_le(a: MatcherView, b: MatcherView) -> bool {
    (texts_le(a.path_suffixes, b.path_suffixes) && a.path_suffixes != b.path_suffixes) || (
    a.path_suffixes == b.path_suffixes && opt_text_le(a.first_line_pattern, b.first_line_pattern))
}

/// Languages by extension, then by directory, then by name, then by
/// matcher.
pub open spec fn language_le(a: LanguageView, b: LanguageView) -> bool {
    text_lt(a.extension, b.extension) || (a.extension == b.extension && (text_lt(
        a.language_dir,
        b.language_dir,
    ) || (a.language_dir == b.language_dir && (text_lt(a.name, b.name) || (a.name == b.name
        && matcher_le(a.matcher, b.matcher))))))
}

proof fn lemma_texts_le_total(a: Seq<Seq<char>>, b: Seq<Seq<char>>)
    ensures
        texts_le(a, b) || texts_le(b, a),
    decreases a.len(),
{
    if a.len() > 0 && b.len() > 0 {
        lemma_text_le_total(a[0], b[0]);
        if a[0] == b[0] {
            lemma_texts_le_total(a.drop_first(), b.drop_first());
        }
    }
}

proof fn lemma_texts_le_antisym(a: Seq<Seq<char>>, b: Seq<Seq<char>>)
    requires
        texts_le(a, b),
        texts_le(b, a),
    ensures
        a == b,
    decreases a.len(),
{
    if a.len() > 0 && b.len() > 0 {
        if a[0] != b[0] {
            lemma_text_le_antisym(a[0], b[0]);
        }
        lemma_texts_le_antisym(a.drop_first(), b.drop_first());
        assert(a =~= seq![a[0]] + a.drop_first());
        assert(b =~= seq![b[0]] + b.drop_first());
    }
}

proof fn lemma_texts_le_trans(a: Seq<Seq<char>>, b: Seq<Seq<char>>, c: Seq<Seq<char>>)
    requires
        texts_le(a, b),
        texts_le(b, c),
    ensures
        texts_le(a, c),
    decreases a.len(),
{
    if a.len() > 0 && b.len() > 0 && c.len() > 0 {
        lemma_lt_or_eq_trans_any(a[0], b[0], c[0]);
        if a[0] == b[0] && b[0] == c[0] {
            lemma_texts_le_trans(a.drop_first(), b.drop_first(), c.drop_first());
        }
    }
}

proof fn lemma_lt_or_eq_trans_any(a: Seq<char>, b: Seq<char>, c: Seq<char>)
    ensures
        (text_le(a, b) && text_le(b, c)) ==> text_le(a, c),
        (text_le(a, b) && text_le(b, c) && (text_lt(a, b) || text_lt(b, c))) ==> text_lt(a, c),
{
    if text_le(a, b) && text_le(b, c) {
        lemma_lt_or_eq_trans(a, b, c);
    }
}

proof fn lemma_matcher_le_total(a: MatcherView, b: MatcherView)
    ensures
        matcher_le(a, b) || matcher_le(b, a),
{
    lemma_texts_le_total(a.path_suffixes, b.path_suffixes);
    if let (Some(x), Some(y)) = (a.first_line_pattern, b.first_line_pattern) {
        lemma_text_le_total(x, y);
    }
}

proof fn lemma_matcher_le_antisym(a: MatcherView, b: MatcherView)
    requires
        matcher_le(a, b),
        matcher_le(b, a),
    ensures
        a == b,
{
    if a.path_suffixes != b.path_suffixes {
        lemma_texts_le_antisym(a.path_suffixes, b.path_suffixes);
    }
    if let (Some(x), Some(y)) = (a.first_line_pattern, b.first_line_pattern) {
        lemma_text_le_antisym(x, y);
    }
}

proof fn lemma_matcher_le_trans(a: MatcherView, b: MatcherView, c: MatcherView)
    requires
        matcher_le(a, b),
        matcher_le(b, c),
    ensures
        matcher_le(a, c),
{
    if texts_le(a.path_suffixes, b.path_suffixes) && texts_le(b.path_suffixes, c.path_suffixes) {
        lemma_texts_le_trans(a.path_suffixes, b.path_suffixes, c.path_suffixes);
        if a.path_suffixes == c.path_suffixes && a.path_suffixes != b.path_suffixes {
            lemma_texts_le_antisym(a.path_suffixes, b.path_suffixes);
        }
        if a.path_suffixes == c.path_suffixes && b.path_suffixes != c.path_suffixes {
            lemma_texts_le_antisym(b.path_suffixes, c.path_suffixes);
        }
    }
    if let (Some(x), Some(y), Some(z)) = (
        a.first_line_pattern,
        b.first_line_pattern,
        c.first_line_pattern,
    ) {
        if text_le(x, y) && text_le(y, z) {
            lemma_text_le_trans(x, y, z);
        }
    }
}

proof fn lemma_lt_or_eq_trans(a: Seq<char>, b: Seq<char>, c: Seq<char>)
    requires
        text_le(a, b),
        text_le(b, c),
    ensures
        text_le(a, c),
        (text_lt(a, b) || text_lt(b, c)) ==> text_lt(a, c),
{
    lemma_text_le_trans(a, b, c);
    if a == c && (a != b || b != c) {
        lemma_text_le_antisym(a, b);
    }
}

impl CanonicalOrder for GrammarManifestEntry {
    open spec fn le_spec(a: GrammarView, b: GrammarView) -> bool {
        grammar_le(a, b)
    }

    proof fn lemma_le_total(a: GrammarView, b: GrammarView) {
        lemma_text_le_total(a.extension, b.extension);
        lemma_text_le_total(a.grammar_name, b.grammar_name);
    }

    proof fn lemma_le_trans(a: GrammarView, b: GrammarView, c: GrammarView) {
        if text_le(a.extension, b.extension) && text_le(b.extension, c.extension) {
            lemma_lt_or_eq_trans(a.extension, b.extension, c.extension);
        }
        if text_le(a.grammar_name, b.grammar_name) && text_le(b.grammar_name, c.grammar_name) {
            lemma_text_le_trans(a.grammar_name, b.grammar_name, c.grammar_name);
        }
    }

    proof fn lemma_le_antisym(a: GrammarView, b: GrammarView) {
        if a.extension != b.extension {
            lemma_text_le_antisym(a.extension, b.extension);
        }
        lemma_text_le_antisym(a.grammar_name, b.grammar_name);
    }

    fn le(&self, other: &Self) -> (r: bool) {
        let ext_le = le_text(self.extension.as_str(), other.extension.as_str());
        let ext_eq = eq_text(self.extension.as_str(), other.extension.as_str());
        if ext_le && !ext_eq {
            true
        } else if ext_eq {
            le_text(self.grammar_name.as_str(), other.grammar_name.as_str())
        } else {
            false
        }
    }
}

impl CanonicalOrder for LanguageManifestEntry {
    open spec fn le_spec(a: LanguageView, b: LanguageView) -> bool {
        language_le(a, b)
    }

    proof fn lemma_le_total(a: LanguageView, b: LanguageView) {
        lemma_text_le_total(a.extension, b.extension);
        lemma_text_le_total(a.language_dir, b.language_dir);
        lemma_text_le_total(a.name, b.name);
        lemma_matcher_le_total(a.matcher, b.matcher);
    }

    proof fn lemma_le_trans(a: LanguageView, b: LanguageView, c: LanguageView) {
        lemma_lt_or_eq_trans_any(a.extension, b.extension, c.extension);
        lemma_lt_or_eq_trans_any(a.language_dir, b.language_dir, c.language_dir);
        lemma_lt_or_eq_trans_any(a.name, b.name, c.name);
        if matcher_le(a.matcher, b.matcher) && matcher_le(b.matcher, c.matcher) {
            lemma_matcher_le_trans(a.matcher, b.matcher, c.matcher);
        }
    }

    proof fn lemma_le_antisym(a: LanguageView, b: LanguageView) {
        if a.extension != b.extension {
            lemma_text_le_antisym(a.extension, b.extension);
        }
        if a.language_dir != b.language_dir {
            lemma_text_le_antisym(a.language_dir, b.language_dir);
        }
        if a.name != b.name {
            lemma_text_le_antisym(a.name, b.name);
        }
        lemma_matcher_le_antisym(a.matcher, b.matcher);
    }

    fn le(&self, other: &Self) -> (r: bool) {
        let ext_le = le_text(self.extension.as_str(), other.extension.as_str());
        let ext_eq = eq_text(self.extension.as_str(), other.extension.as_str());
        if !ext_eq {
            return ext_le;
        }
        let dir_le = le_text(self.language_dir.as_str(), other.language_dir.as_str());
        let dir_eq = eq_text(self.language_dir.as_str(), other.language_dir.as_str());
        if !dir_eq {
            return dir_le;
        }
        let name_le = le_text(self.name.as_str(), other.name.as_str());
        let name_eq = eq_text(self.name.as_str(), other.name.as_str());
        if !name_eq {
            return name_le;
        }
        matcher_le_exec(&self.matcher, &other.matcher)
    }
}

/// Whether `a` comes no later than `b` in lexicographic order.
fn le_texts(a: &Vec<String>, b: &Vec<String>) -> (r: bool)
    ensures
        r == texts_le(texts_view(a@), texts_view(b@)),
{
    let ghost va = texts_view(a@);
    let ghost vb = texts_view(b@);
    let mut i: usize = 0;
    assert(va.skip(0) =~= va);
    assert(vb.skip(0) =~= vb);
    while i < a.len() && i < b.len()
        invariant
            va == texts_view(a@),
            vb == texts_view(b@),
            i <= a.len(),
            i <= b.len(),
            texts_le(va, vb) == texts_le(va.skip(i as int), vb.skip(i as int)),
        decreases a.len() - i,
    {
        assert(va.skip(i as int)[0] == a@[i as int]@);
        assert(vb.skip(i as int)[0] == b@[i as int]@);
        let x_le = le_text(a[i].as_str(), b[i].as_str());
        let x_eq = eq_text(a[i].as_str(), b[i].as_str());
        if !x_eq {
            return x_le;
        }
        assert(va.skip(i as int).drop_first() =~= va.skip(i + 1));
        assert(vb.skip(i as int).drop_first() =~= vb.skip(i + 1));
        i = i + 1;
    }
    i == a.len()
}

fn matcher_le_exec(a: &LanguageMatcher, b: &LanguageMatcher) -> (r: bool)
    ensures
        r == matcher_le(a@, b@),
{
    let sfx_le = le_texts(&a.path_suffixes, &b.path_suffixes);
    let sfx_ge = le_texts(&b.path_suffixes, &a.path_suffixes);
    proof {
        if sfx_le && sfx_ge {
            lemma_texts_le_antisym(a@.path_suffixes, b@.path_suffixes);
        }
    }
    if sfx_le != sfx_ge {
        return sfx_le;
    }
    if !sfx_le {
        proof {
            lemma_texts_le_total(a@.path_suffixes, b@.path_suffixes);
        }
        return false;
    }
    match (&a.first_line_pattern, &b.first_line_pattern) {
        (None, _) => true,
        (Some(_), None) => false,
        (Some(x), Some(y)) => le_text(x.as_str(), y.as_str()),
    }
}

/// The pairs of a theme list, as views.
pub open spec fn theme_pairs(s: Seq<(String, ThemeLocation)>) -> Seq<(Seq<char>, ThemeLocationView)> {
    s.map_values(|p: (String, ThemeLocation)| (p.0@, p.1@))
}

/// `p` with `name` set to `loc`: in place where the name stands, else at the
/// end.
pub open spec fn pairs_insert(
    p: Seq<(Seq<char>, ThemeLocationView)>,
    name: Seq<char>,
    loc: ThemeLocationView,
) -> Seq<(Seq<char>, ThemeLocationView)> {
    if exists|i: int| 0 <= i < p.len() && p[i].0 == name {
        p.update(choose|i: int| 0 <= i < p.len() && p[i].0 == name, (name, loc))
    } else {
        p.push((name, loc))
    }
}

proof fn lemma_themes_map_keys(s: Seq<(String, ThemeLocation)>)
    requires
        theme_names_unique(s),
    ensures
        forall|i: int|
            0 <= i < s.len() ==> #[trigger] themes_map(s).contains_key(s[i].0@) && themes_map(
                s,
            )[s[i].0@] == s[i].1@,
        forall|k: Seq<char>|
            #[trigger] themes_map(s).contains_key(k) ==> exists|i: int|
                0 <= i < s.len() && s[i].0@ == k,
    decreases s.len(),
{
    if s.len() > 0 {
        let t = s.drop_last();
        lemma_themes_map_keys(t);
        assert forall|i: int| 0 <= i < s.len() implies #[trigger] themes_map(s).contains_key(
            s[i].0@,
        ) && themes_map(s)[s[i].0@] == s[i].1@ by {
            if i < s.len() - 1 {
                assert(t[i] == s[i]);
                assert(s[i].0@ != s[s.len() - 1].0@);
                assert(themes_map(t).contains_key(t[i].0@));
            }
        }
        assert forall|k: Seq<char>| #[trigger] themes_map(s).contains_key(k) implies exists|i: int|
            0 <= i < s.len() && s[i].0@ == k by {
            if k != s.last().0@ {
                assert(themes_map(t).contains_key(k));
                let i = choose|i: int| 0 <= i < t.len() && t[i].0@ == k;
                assert(s[i] == t[i]);
            }
        }
    }
}

/// Records `location` under `name`, replacing what stood under that name.
pub fn insert_theme(
    themes: &mut Vec<(String, ThemeLocation)>,
    name: String,
    location: ThemeLocation,
)
    requires
        theme_names_unique(old(themes)@),
    ensures
        theme_names_unique(final(themes)@),
        themes_map(final(themes)@) == themes_map(old(themes)@).insert(name@, location@),
        theme_pairs(final(themes)@) == pairs_insert(theme_pairs(old(themes)@), name@, location@),
{
    let ghost before = themes@;
    let mut i: usize = 0;
    while i < themes.len() && !eq_text(themes[i].0.as_str(), name.as_str())
        invariant
            themes@ == before,
            theme_names_unique(before),
            i <= themes.len(),
            forall|k: int| 0 <= k < i ==> themes@[k].0@ != name@,
        decreases themes.len() - i,
    {
        i = i + 1;
    }
    proof {
        lemma_themes_map_keys(before);
    }
    if i < themes.len() {
        proof {
            assert(themes@[i as int].0@ == name@);
        }
        themes.set(i, (name, location));
        proof {
            let after = themes@;
            assert forall|a: int, b: int| 0 <= a < b < after.len() implies after[a].0@ != after[b].0@ by {
                assert(before[a].0@ != before[b].0@);
            }
            assert(theme_names_unique(after));
            lemma_themes_map_keys(after);
            let m = themes_map(before).insert(name@, location@);
            assert forall|k: Seq<char>| #[trigger] themes_map(after).contains_key(k) <==> m.contains_key(k) by {
                if themes_map(after).contains_key(k) {
                    assert(exists|j: int| 0 <= j < after.len() && after[j].0@ == k);
                    let j = choose|j: int| 0 <= j < after.len() && after[j].0@ == k;
                    if j != i {
                        assert(before[j] == after[j]);
                        assert(themes_map(before).contains_key(before[j].0@));
                    }
                }
                if m.contains_key(k) && k == name@ {
                    assert(themes_map(after).contains_key(after[i as int].0@));
                }
                if m.contains_key(k) && k != name@ {
                    assert(themes_map(before).contains_key(k));
                    let j = choose|j: int| 0 <= j < before.len() && before[j].0@ == k;
                    assert(before[j] == after[j]);
                    assert(themes_map(after).contains_key(after[j].0@));
                }
            }
            assert forall|k: Seq<char>| #[trigger] themes_map(after).contains_key(k) implies themes_map(after)[k] == m[k] by {
                assert(exists|j: int| 0 <= j < after.len() && after[j].0@ == k);
                let j = choose|j: int| 0 <= j < after.len() && after[j].0@ == k;
                if j != i {
                    assert(before[j] == after[j]);
                }
            }
            assert(themes_map(after) =~= m);
            let p = theme_pairs(before);
            assert(p[i as int].0 == name@);
            let j = choose|j: int| 0 <= j < p.len() && p[j].0 == name@;
            if j != i {
                assert(before[j].0@ != before[i as int].0@ || j == i);
            }
            assert(j == i);
            assert(theme_pairs(after) =~= p.update(i as int, (name@, location@)));
        }
    } else {
        themes.push((name, location));
        proof {
            let after = themes@;
            assert(after.drop_last() =~= before);
            assert forall|a: int, b: int| 0 <= a < b < after.len() implies after[a].0@ != after[b].0@ by {
                if b < before.len() {
                    assert(before[a].0@ != before[b].0@);
                }
            }
            assert(theme_names_unique(after));
            let p = theme_pairs(before);
            assert(!(exists|j: int| 0 <= j < p.len() && p[j].0 == name@));
            assert(theme_pairs(after) =~= p.push((name@, location@)));
        }
    }
}

impl Manifest {
    /// A manifest that knows of nothing.
    pub fn empty() -> (r: Manifest)
        ensures
            r@.grammars.len() == 0,
            r@.languages.len() == 0,
            r@.themes_by_name == Map::<Seq<char>, ThemeLocationView>::empty(),
            r.well_formed(),
    {
        Manifest { grammars: Vec::new(), languages: Vec::new(), themes_by_name: Vec::new() }
    }

    /// Grammars and languages stand in canonical order and theme names are
    /// distinct.
    pub open spec fn well_formed(&self) -> bool {
        is_sorted::<GrammarManifestEntry>(self@.grammars) && is_sorted::<LanguageManifestEntry>(
            self@.languages,
        ) && theme_names_unique(self.themes_by_name@)
    }
}

} // verus!
