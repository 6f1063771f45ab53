use vstd::prelude::*;
use crate::manifest::{LanguageMatcher, MatcherView, texts_view};
use crate::text::eq_text;

verus! {

/// A parsed configuration document, as plain values.
pub enum DocValue {
    Text(String),
    Integer(i64),
    Boolean(bool),
    List(Vec<DocValue>),
    Table(Vec<(String, DocValue)>),
    /// A value this library does not read (a float, a date, a null).
    Other,
}

/// A document as a mathematical value.
pub enum DocView {
    Text(Seq<char>),
    Integer(i64),
    Boolean(bool),
    List(Seq<DocView>),
    Table(Seq<(Seq<char>, DocView)>),
    Other,
}

/// The mathematical value of a document.
pub open spec fn doc_view(d: DocValue) -> DocView
    decreases d,
{
    match d {
        DocValue::Text(s) => DocView::Text(s@),
        DocValue::Integer(i) => DocView::Integer(i),
        DocValue::Boolean(b) => DocView::Boolean(b),
        DocValue::List(items) => DocView::List(
            Seq::new(items@.len(), |i: int| if 0 <= i < items@.len() { doc_view(items@[i]) } else { DocView::Other }),
        ),
        DocValue::Table(e) => DocView::Table(
            Seq::new(e@.len(), |i: int| if 0 <= i < e@.len() { (e@[i].0@, doc_view(e@[i].1)) } else { (Seq::empty(), DocView::Other) }),
        ),
        DocValue::Other => DocView::Other,
    }
}

#[verifier::external_type_specification]
#[verifier::external_body]
pub struct ExTomlValue(toml::Value);

#[verifier::external_type_specification]
#[verifier::external_body]
pub struct ExJsonValue(serde_json::Value);

/// What `toml::from_str` makes of a text read as a table, if it is TOML.
pub uninterp spec fn toml_document(text: Seq<char>) -> Option<DocValue>;

/// What `serde_json::from_str` makes of a text, if it is JSON.
pub uninterp spec fn json_document(text: Seq<char>) -> Option<DocValue>;

/// Relies on the variants of `toml::Value`, each moved into the variant of
/// `DocValue` that holds the same data.
#[verifier::external_body]
fn doc_from_toml(v: toml::Value) -> DocValue {
    match v {
        toml::Value::String(s) => DocValue::Text(s),
        toml::Value::Integer(i) => DocValue::Integer(i),
        toml::Value::Boolean(b) => DocValue::Boolean(b),
        toml::Value::Array(a) => DocValue::List(a.into_iter().map(doc_from_toml).collect()),
        toml::Value::Table(t) => DocValue::Table(t.into_iter().map(|(k, v)| (k, doc_from_toml(v))).collect()),
        toml::Value::Float(_) => DocValue::Other,
        toml::Value::Datetime(_) => DocValue::Other,
    }
}

/// Relies on the variants of `serde_json::Value`, each moved into the variant
/// of `DocValue` that holds the same data.
#[verifier::external_body]
fn doc_from_json(v: serde_json::Value) -> DocValue {
    match v {
        serde_json::Value::String(s) => DocValue::Text(s),
        serde_json::Value::Bool(b) => DocValue::Boolean(b),
        serde_json::Value::Array(a) => DocValue::List(a.into_iter().map(doc_from_json).collect()),
        serde_json::Value::Object(m) => DocValue::Table(m.into_iter().map(|(k, v)| (k, doc_from_json(v))).collect()),
        serde_json::Value::Number(_) => DocValue::Other,
        serde_json::Value::Null => DocValue::Other,
    }
}

/// Relies on `toml::from_str`: reads `text` as a TOML table; `None` where it
/// is not valid TOML.
#[verifier::external_body]
fn parse_toml(text: &str) -> (r: Option<DocValue>)
    ensures
        r == toml_document(text@),
        r matches Some(d) ==> d is Table,
{
    match toml::from_str::<toml::Table>(text) {
        Ok(t) => Some(doc_from_toml(toml::Value::Table(t))),
        Err(_) => None,
    }
}

/// Relies on `serde_json::from_str`: reads `text` as a JSON value; `None`
/// where it is not valid JSON.
#[verifier::external_body]
pub(crate) fn parse_json(text: &str) -> (r: Option<DocValue>)
    ensures
        r == json_document(text@),
{
    match serde_json::from_str::<serde_json::Value>(text) {
        Ok(v) => Some(doc_from_json(v)),
        Err(_) => None,
    }
}

/// The value under the first entry named `key`.
pub open spec fn lookup(entries: Seq<(String, DocValue)>, key: Seq<char>) -> Option<DocValue>
    decreases entries.len(),
{
    if entries.len() == 0 {
        None
    } else if entries[0].0@ == key {
        Some(entries[0].1)
    } else {
        lookup(entries.drop_first(), key)
    }
}

/// The value under `key` in a table.
pub fn field<'a>(entries: &'a Vec<(String, DocValue)>, key: &str) -> (r: Option<&'a DocValue>)
    ensures
        r == match lookup(entries@, key@) {
            Some(v) => Some(&v),
            None => None::<&DocValue>,
        },
{
    let mut i: usize = 0;
    assert(entries@.skip(0) =~= entries@);
    while i < entries.len()
        invariant
            i <= entries.len(),
            lookup(entries@, key@) == lookup(entries@.skip(i as int), key@),
        decreases entries.len() - i,
    {
        assert(entries@.skip(i as int)[0] == entries@[i as int]);
        if eq_text(entries[i].0.as_str(), key) {
            return Some(&entries[i].1);
        }
        assert(entries@.skip(i as int).drop_first() =~= entries@.skip(i + 1));
        i = i + 1;
    }
    None
}

/// Whether every item is a text.
pub open spec fn all_texts(items: Seq<DocValue>) -> bool {
    forall|i: int| 0 <= i < items.len() ==> items[i] is Text
}

/// The texts that the items hold.
pub open spec fn texts_of(items: Seq<DocValue>) -> Seq<Seq<char>> {
    items.map_values(|d: DocValue| d->Text_0@)
}

/// A list of texts, as the strings it holds; `None` for anything else.
pub fn text_list(doc: &DocValue) -> (r: Option<Vec<String>>)
    ensures
        r is Some <==> (*doc matches DocValue::List(items) && all_texts(items@)),
        r matches Some(v) ==> *doc matches DocValue::List(items) && texts_view(v@) == texts_of(
            items@,
        ),
{
    match doc {
        DocValue::List(items) => {
            let mut out: Vec<String> = Vec::new();
            let mut i: usize = 0;
            while i < items.len()
                invariant
                    *doc == DocValue::List(*items),
                    i <= items.len(),
                    all_texts(items@.take(i as int)),
                    texts_view(out@) == texts_of(items@.take(i as int)),
                decreases items.len() - i,
            {
                match &items[i] {
                    DocValue::Text(s) => {
                        let ghost prev = out@;
                        out.push(s.clone());
                        proof {
                            assert(items@.take(i + 1) =~= items@.take(i as int).push(items@[i as int]));
                            assert(texts_view(out@) =~= texts_view(prev).push(s@));
                            assert(texts_of(items@.take(i + 1)) =~= texts_of(items@.take(i as int)).push(s@));
                        }
                    },
                    _ => {
                        proof {
                            assert(!(items@[i as int] is Text));
                            assert(!all_texts(items@));
                        }
                        return None;
                    },
                }
                i = i + 1;
            }
            proof {
                assert(items@.take(items@.len() as int) =~= items@);
            }
            Some(out)
        },
        _ => None,
    }
}

/// The name and file-association rules a language declares.
#[derive(Clone, Debug, PartialEq, Eq)]
pub struct LanguageConfig {
    pub name: String,
    pub matcher: LanguageMatcher,
}

pub struct LanguageConfigView {
    pub name: Seq<char>,
    pub matcher: MatcherView,
}

impl View for LanguageConfig {
    type V = LanguageConfigView;

    open spec fn view(&self) -> LanguageConfigView {
        LanguageConfigView { name: self.name@, matcher: self.matcher@ }
    }
}

/// `path_suffixes` is absent, or a list of texts.
pub open spec fn suffixes_of(v: Option<DocValue>) -> Option<Seq<Seq<char>>> {
    match v {
        None => Some(Seq::empty()),
        Some(DocValue::List(items)) => if all_texts(items@) {
            Some(texts_of(items@))
        } else {
            None
        },
        _ => None,
    }
}

/// `first_line_pattern` is absent, or a text. The outer `Option` says
/// whether the field is well formed.
pub open spec fn pattern_of(v: Option<DocValue>) -> Option<Option<Seq<char>>> {
    match v {
        None => Some(None),
        Some(DocValue::Text(s)) => Some(Some(s@)),
        _ => None,
    }
}

/// The language configuration a document declares: a table with a text
/// `name` and well-formed optional `path_suffixes` and `first_line_pattern`.
pub open spec fn config_of(doc: DocValue) -> Option<LanguageConfigView> {
    match doc {
        DocValue::Table(entries) => match (
            lookup(entries@, "name"@),
            suffixes_of(lookup(entries@, "path_suffixes"@)),
            pattern_of(lookup(entries@, "first_line_pattern"@)),
        ) {
            (Some(DocValue::Text(n)), Some(sfx), Some(pat)) => Some(
                LanguageConfigView {
                    name: n@,
                    matcher: MatcherView { path_suffixes: sfx, first_line_pattern: pat },
                },
            ),
            _ => None,
        },
        _ => None,
    }
}

/// Reads a language configuration out of a parsed document.
pub fn config_from_doc(doc: &DocValue) -> (r: Option<LanguageConfig>)
    ensures
        r is Some <==> config_of(*doc) is Some,
        r matches Some(c) ==> config_of(*doc) == Some(c@),
{
    let entries = match doc {
        DocValue::Table(entries) => entries,
        _ => {
            return None;
        },
    };
    let name = match field(entries, "name") {
        Some(DocValue::Text(n)) => n.clone(),
        _ => {
            return None;
        },
    };
    let path_suffixes = match field(entries, "path_suffixes") {
        None => Vec::new(),
        Some(v) => match text_list(v) {
            Some(list) => list,
            None => {
                return None;
            },
        },
    };
    let first_line_pattern = match field(entries, "first_line_pattern") {
        None => None,
        Some(DocValue::Text(p)) => Some(p.clone()),
        Some(_) => {
            return None;
        },
    };
    let r = LanguageConfig { name, matcher: LanguageMatcher { path_suffixes, first_line_pattern } };
    proof {
        assert(texts_view(r.matcher.path_suffixes@) =~= suffixes_of(
            lookup(entries@, "path_suffixes"@),
        )->Some_0);
    }
    Some(r)
}

/// Parses the text of a language's `config.toml`.
pub fn parse_language_config(text: &str) -> (r: Option<LanguageConfig>)
    ensures
        r is Some <==> (toml_document(text@) matches Some(d) && config_of(d) is Some),
        r matches Some(c) ==> toml_document(text@) matches Some(d) && config_of(d) == Some(c@),
{
    match parse_toml(text) {
        Some(doc) => config_from_doc(&doc),
        None => None,
    }
}

/// The names a theme family declares: a table with a text `name`, a text
/// `author` and a list `themes` of tables, each with a text `name`.
pub open spec fn theme_names_of(doc: DocValue) -> Option<Seq<Seq<char>>> {
    match doc {
        DocValue::Table(entries) => match (
            lookup(entries@, "name"@),
            lookup(entries@, "author"@),
            lookup(entries@, "themes"@),
        ) {
            (Some(DocValue::Text(_)), Some(DocValue::Text(_)), Some(DocValue::List(items))) => {
                if forall|i: int| 0 <= i < items@.len() ==> #[trigger] theme_name_of(items@[i]) is Some {
                    Some(items@.map_values(|t: DocValue| theme_name_of(t)->Some_0))
                } else {
                    None
                }
            },
            _ => None,
        },
        _ => None,
    }
}

/// The name one theme of a family declares.
pub open spec fn theme_name_of(theme: DocValue) -> Option<Seq<char>> {
    match theme {
        DocValue::Table(entries) => match lookup(entries@, "name"@) {
            Some(DocValue::Text(n)) => Some(n@),
            _ => None,
        },
        _ => None,
    }
}

fn theme_name(theme: &DocValue) -> (r: Option<String>)
    ensures
        r is Some <==> theme_name_of(*theme) is Some,
        r matches Some(n) ==> theme_name_of(*theme) == Some(n@),
{
    match theme {
        DocValue::Table(entries) => match field(entries, "name") {
            Some(DocValue::Text(n)) => Some(n.clone()),
            _ => None,
        },
        _ => None,
    }
}

/// Reads the theme names out of a parsed theme family.
pub fn theme_names_from_doc(doc: &DocValue) -> (r: Option<Vec<String>>)
    ensures
        r is Some <==> theme_names_of(*doc) is Some,
        r matches Some(v) ==> theme_names_of(*doc) == Some(texts_view(v@)),
{
    let entries = match doc {
        DocValue::Table(entries) => entries,
        _ => {
            return None;
        },
    };
    let name_ok = match field(entries, "name") {
        Some(DocValue::Text(_)) => true,
        _ => false,
    };
    let author_ok = match field(entries, "author") {
        Some(DocValue::Text(_)) => true,
        _ => false,
    };
    if !name_ok || !author_ok {
        return None;
    }
    assert(lookup(entries@, "name"@) matches Some(DocValue::Text(_)));
    assert(lookup(entries@, "author"@) matches Some(DocValue::Text(_)));
    let items = match field(entries, "themes") {
        Some(DocValue::List(items)) => items,
        _ => {
            return None;
        },
    };
    assert(lookup(entries@, "themes"@) == Some(DocValue::List(*items)));
    let mut names: Vec<String> = Vec::new();
    let mut i: usize = 0;
    while i < items.len()
        invariant
            *doc == DocValue::Table(*entries),
            lookup(entries@, "name"@) matches Some(DocValue::Text(_)),
            lookup(entries@, "author"@) matches Some(DocValue::Text(_)),
            lookup(entries@, "themes"@) == Some(DocValue::List(*items)),
            i <= items.len(),
            forall|k: int| 0 <= k < i ==> #[trigger] theme_name_of(items@[k]) is Some,
            texts_view(names@) == items@.take(i as int).map_values(
                |t: DocValue| theme_name_of(t)->Some_0,
            ),
        decreases items.len() - i,
    {
        match theme_name(&items[i]) {
            Some(n) => {
                let ghost prev = names@;
                names.push(n);
                proof {
                    assert(texts_view(names@) =~= texts_view(prev).push(n@));
                    assert(items@.take(i + 1).map_values(|t: DocValue| theme_name_of(t)->Some_0)
                        =~= items@.take(i as int).map_values(
                        |t: DocValue| theme_name_of(t)->Some_0,
                    ).push(n@));
                }
            },
            None => {
                proof {
                    assert(theme_name_of(items@[i as int]) is None);
                    assert(!(forall|i: int| 0 <= i < items@.len() ==> #[trigger] theme_name_of(items@[i]) is Some));
                }
                return None;
            },
        }
        i = i + 1;
    }
    proof {
        assert(items@.take(items@.len() as int) =~= items@);
    }
    Some(names)
}

/// Parses the text of a theme family file into the theme names it declares.
pub fn parse_theme_names(text: &str) -> (r: Option<Vec<String>>)
    ensures
        r is Some <==> (json_document(text@) matches Some(d) && theme_names_of(d) is Some),
        r matches Some(v) ==> json_document(text@) matches Some(d) && theme_names_of(d) == Some(
            texts_view(v@),
        ),
{
    match parse_json(text) {
        Some(doc) => theme_names_from_doc(&doc),
        None => None,
    }
}

} // verus!
