use vstd::prelude::*;
use crate::text::{ends_with_text, join_text, starts_with_text};

verus! {

/// A file in a language's root directory, with its text (`None` where it
/// could not be read).
#[derive(Clone, Debug, PartialEq, Eq)]
pub struct QueryFile {
    pub name: String,
    pub contents: Option<String>,
}

/// The query categories, in the order their prefixes are tried.
pub open spec fn category_names() -> Seq<Seq<char>> {
    seq![
        "highlights"@,
        "brackets"@,
        "outline"@,
        "indents"@,
        "embedding"@,
        "injections"@,
        "overrides"@,
        "redactions"@,
    ]
}

/// The query categories, in the order their prefixes are tried.
pub fn query_categories() -> (r: Vec<&'static str>)
    ensures
        r@.map_values(|c: &'static str| c@) == category_names(),
{
    let r = vec![
        "highlights",
        "brackets",
        "outline",
        "indents",
        "embedding",
        "injections",
        "overrides",
        "redactions",
    ];
    assert(r@.map_values(|c: &'static str| c@) =~= category_names());
    r
}

pub open spec fn has_prefix_text(s: Seq<char>, p: Seq<char>) -> bool {
    p.len() <= s.len() && s.take(p.len() as int) == p
}

/// The first category among `cats[from..]` whose name starts `name`.
pub open spec fn first_category_from(name: Seq<char>, cats: Seq<Seq<char>>, from: int) -> Option<int>
    decreases cats.len() - from,
{
    if from < 0 || from >= cats.len() {
        None
    } else if has_prefix_text(name, cats[from]) {
        Some(from)
    } else {
        first_category_from(name, cats, from + 1)
    }
}

/// The category a file contributes to: a `.scm` file goes to the first
/// category whose name starts its file name.
pub open spec fn category_of(name: Seq<char>) -> Option<int> {
    let ext = ".scm"@;
    if ext.len() <= name.len() && name.skip(name.len() - ext.len()) == ext {
        first_category_from(name, category_names(), 0)
    } else {
        None
    }
}

/// The text a readable file adds to category `k`.
pub open spec fn contribution(f: QueryFile, k: int) -> Seq<char> {
    if category_of(f.name@) == Some(k) && f.contents is Some {
        f.contents->Some_0@
    } else {
        Seq::empty()
    }
}

/// Whether some readable file of `files` contributes to category `k`.
pub open spec fn contributes(files: Seq<QueryFile>, k: int) -> bool {
    exists|i: int|
        0 <= i < files.len() && category_of(files[i].name@) == Some(k) && (
        #[trigger] files[i]).contents is Some
}

/// The queries of category `k`: the texts of the files that contribute to
/// it, one after another in listing order.
pub open spec fn category_text(files: Seq<QueryFile>, k: int) -> Seq<char>
    decreases files.len(),
{
    if files.len() == 0 {
        Seq::empty()
    } else {
        category_text(files.drop_last(), k) + contribution(files.last(), k)
    }
}

fn category_index(name: &str, cats: &Vec<&'static str>) -> (r: Option<usize>)
    requires
        cats@.map_values(|c: &'static str| c@) == category_names(),
    ensures
        r matches Some(k) ==> category_of(name@) == Some(k as int) && k < category_names().len(),
        r is None ==> category_of(name@) is None,
{
    if !ends_with_text(name, ".scm") {
        return None;
    }
    let ghost names = cats@.map_values(|c: &'static str| c@);
    let mut k: usize = 0;
    while k < cats.len()
        invariant
            names == cats@.map_values(|c: &'static str| c@),
            names == category_names(),
            k <= cats.len(),
            category_of(name@) == first_category_from(name@, names, 0),
            first_category_from(name@, names, 0) == first_category_from(name@, names, k as int),
        decreases cats.len() - k,
    {
        if starts_with_text(name, cats[k]) {
            assert(names[k as int] == cats@[k as int]@);
            return Some(k);
        }
        assert(names[k as int] == cats@[k as int]@);
        k = k + 1;
    }
    None
}

/// Gathers the queries of a language from the files of its root directory:
/// entry `k` of the result holds the texts of the `.scm` files whose names
/// start with the `k`-th category, concatenated in listing order, or `None`
/// where no readable file contributes to it. A file that cannot be read
/// contributes nothing.
pub fn load_plugin_queries(files: &Vec<QueryFile>) -> (r: Vec<Option<String>>)
    ensures
        r@.len() == category_names().len(),
        forall|k: int|
            0 <= k < r@.len() ==> (#[trigger] r@[k] is Some) == contributes(files@, k),
        forall|k: int|
            0 <= k < r@.len() && r@[k] is Some ==> (#[trigger] r@[k])->Some_0@ == category_text(
                files@,
                k,
            ),
{
    let cats = query_categories();
    let mut result: Vec<Option<String>> = Vec::new();
    let mut k: usize = 0;
    while k < cats.len()
        invariant
            k <= cats.len(),
            cats@.len() == category_names().len(),
            result@.len() == k,
            forall|j: int| 0 <= j < k ==> (#[trigger] result@[j]) is None,
        decreases cats.len() - k,
    {
        result.push(None);
        k = k + 1;
    }
    let mut i: usize = 0;
    while i < files.len()
        invariant
            cats@.map_values(|c: &'static str| c@) == category_names(),
            i <= files.len(),
            result@.len() == category_names().len(),
            forall|k: int|
                0 <= k < result@.len() ==> (#[trigger] result@[k] is Some) == contributes(
                    files@.take(i as int),
                    k,
                ),
            forall|k: int|
                0 <= k < result@.len() && result@[k] is Some ==> (#[trigger] result@[k])->Some_0@
                    == category_text(files@.take(i as int), k),
        decreases files.len() - i,
    {
        let f = &files[i];
        let ghost before = result@;
        let ghost prefix = files@.take(i as int);
        let ghost next = files@.take(i + 1);
        proof {
            assert(next.drop_last() =~= prefix);
            assert(next.last() == *f);
        }
        let category = category_index(f.name.as_str(), &cats);
        match (category, &f.contents) {
            (Some(k), Some(text)) => {
                let updated = match &result[k] {
                    Some(so_far) => join_text(so_far.as_str(), text.as_str()),
                    None => text.clone(),
                };
                result.set(k, Some(updated));
            },
            _ => {},
        }
        proof {
            assert forall|j: int| 0 <= j < result@.len() implies #[trigger] category_text(next, j)
                =~= category_text(prefix, j) + contribution(*f, j) by {
                assert(next.last() == *f);
            }
            assert forall|j: int| 0 <= j < result@.len() implies (#[trigger] result@[j] is Some)
                == contributes(next, j) by {
                if contributes(prefix, j) {
                    let w = choose|w: int|
                        0 <= w < prefix.len() && category_of(prefix[w].name@) == Some(j) && (
                        #[trigger] prefix[w]).contents is Some;
                    assert(next[w] == prefix[w]);
                }
                if contributes(next, j) && !contributes(prefix, j) {
                    let w = choose|w: int|
                        0 <= w < next.len() && category_of(next[w].name@) == Some(j) && (
                        #[trigger] next[w]).contents is Some;
                    if w < prefix.len() {
                        assert(prefix[w] == next[w]);
                    }
                }
                if category_of(f.name@) == Some(j) && f.contents is Some {
                    assert(next[i as int] == *f);
                }
                if !(category == Some(j as usize) && f.contents is Some) {
                    assert(result@[j] == before[j]);
                }
            }
            assert forall|j: int| 0 <= j < result@.len() && result@[j] is Some implies (
            #[trigger] result@[j])->Some_0@ == category_text(next, j) by {
                assert(category_text(next, j) =~= category_text(prefix, j) + contribution(*f, j));
                if !contributes(prefix, j) {
                    lemma_no_contribution(prefix, j);
                }
                if category == Some(j as usize) && f.contents is Some {
                    if before[j] is Some {
                        assert(before[j]->Some_0@ == category_text(prefix, j));
                    } else {
                        assert(!contributes(prefix, j));
                    }
                } else {
                    assert(result@[j] == before[j]);
                    assert(contribution(*f, j) =~= Seq::<char>::empty());
                }
            }
        }
        i = i + 1;
    }
    proof {
        assert(files@.take(files@.len() as int) =~= files@);
    }
    result
}

proof fn lemma_no_contribution(files: Seq<QueryFile>, k: int)
    requires
        !contributes(files, k),
    ensures
        category_text(files, k) == Seq::<char>::empty(),
    decreases files.len(),
{
    if files.len() > 0 {
        let rest = files.drop_last();
        assert(!contributes(rest, k)) by {
            if contributes(rest, k) {
                let w = choose|w: int|
                    0 <= w < rest.len() && category_of(rest[w].name@) == Some(k) && (
                    #[trigger] rest[w]).contents is Some;
                assert(files[w] == rest[w]);
            }
        }
        lemma_no_contribution(rest, k);
        assert(files[files.len() - 1] == files.last());
        assert(category_text(files, k) =~= Seq::<char>::empty());
    }
}

} // verus!
