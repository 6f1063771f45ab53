use vstd::prelude::*;
use crate::manifest::texts_view;
use crate::text::{join_text, eq_text};

verus! {

/// A path as the sequence of its components.
pub open spec fn path_view(p: Seq<String>) -> Seq<Seq<char>> {
    texts_view(p)
}

/// Component-wise prefix test, as `Path::starts_with` does it.
pub open spec fn has_prefix(path: Seq<Seq<char>>, prefix: Seq<Seq<char>>) -> bool {
    prefix.len() <= path.len() && path.take(prefix.len() as int) == prefix
}

/// `<extensions_dir>/<extension>/languages/<language_dir>`.
pub open spec fn language_root_of(
    dir: Seq<Seq<char>>,
    extension: Seq<char>,
    language_dir: Seq<char>,
) -> Seq<Seq<char>> {
    dir + seq![extension, "languages"@, language_dir]
}

/// `<extensions_dir>/<extension>/grammars/<grammar_name>.wasm`.
pub open spec fn grammar_path_of(
    dir: Seq<Seq<char>>,
    extension: Seq<char>,
    grammar_name: Seq<char>,
) -> Seq<Seq<char>> {
    dir + seq![extension, "grammars"@, grammar_name + ".wasm"@]
}

/// `<extensions_dir>/<extension>/themes/<filename>`.
pub open spec fn theme_path_of(
    dir: Seq<Seq<char>>,
    extension: Seq<char>,
    filename: Seq<char>,
) -> Seq<Seq<char>> {
    dir + seq![extension, "themes"@, filename]
}

/// A copy of the path `p`.
pub fn copy_path(p: &Vec<String>) -> (r: Vec<String>)
    ensures
        path_view(r@) == path_view(p@),
{
    let mut r: Vec<String> = Vec::new();
    let mut i: usize = 0;
    while i < p.len()
        invariant
            i <= p.len(),
            path_view(r@) == path_view(p@).take(i as int),
        decreases p.len() - i,
    {
        let ghost prev = r@;
        let c = p[i].clone();
        r.push(c);
        proof {
            assert(c@ == p@[i as int]@);
            assert(r@ == prev.push(c));
            assert(path_view(r@) =~= path_view(prev).push(c@));
            assert(path_view(p@).take(i + 1) =~= path_view(p@).take(i as int).push(p@[i as int]@));
            assert(path_view(r@) =~= path_view(p@).take(i + 1));
        }
        i = i + 1;
    }
    proof {
        assert(path_view(p@).take(p@.len() as int) =~= path_view(p@));
    }
    r
}

/// `base` extended by three more components.
fn join3(base: &Vec<String>, a: String, b: String, c: String) -> (r: Vec<String>)
    ensures
        path_view(r@) == path_view(base@) + seq![a@, b@, c@],
{
    let mut r = copy_path(base);
    r.push(a);
    r.push(b);
    r.push(c);
    proof {
        assert(path_view(r@) =~= path_view(base@) + seq![a@, b@, c@]);
    }
    r
}

/// The root directory of a language contributed by an extension.
pub fn language_root(extensions_dir: &Vec<String>, extension: &str, language_dir: &str) -> (r: Vec<
    String,
>)
    ensures
        path_view(r@) == language_root_of(path_view(extensions_dir@), extension@, language_dir@),
{
    join3(extensions_dir, extension.to_owned(), "languages".to_owned(), language_dir.to_owned())
}

/// The compiled grammar file of a grammar contributed by an extension.
pub fn grammar_path(extensions_dir: &Vec<String>, extension: &str, grammar_name: &str) -> (r: Vec<
    String,
>)
    ensures
        path_view(r@) == grammar_path_of(path_view(extensions_dir@), extension@, grammar_name@),
{
    let file = join_text(grammar_name, ".wasm");
    join3(extensions_dir, extension.to_owned(), "grammars".to_owned(), file)
}

/// The file of a theme family contributed by an extension.
pub fn theme_path(extensions_dir: &Vec<String>, extension: &str, filename: &str) -> (r: Vec<
    String,
>)
    ensures
        path_view(r@) == theme_path_of(path_view(extensions_dir@), extension@, filename@),
{
    join3(extensions_dir, extension.to_owned(), "themes".to_owned(), filename.to_owned())
}

/// Whether `path` is `prefix` or lies under it.
pub fn starts_with_path(path: &Vec<String>, prefix: &Vec<String>) -> (r: bool)
    ensures
        r == has_prefix(path_view(path@), path_view(prefix@)),
{
    if prefix.len() > path.len() {
        return false;
    }
    let mut i: usize = 0;
    while i < prefix.len()
        invariant
            prefix.len() <= path.len(),
            i <= prefix.len(),
            path_view(path@).take(i as int) == path_view(prefix@).take(i as int),
        decreases prefix.len() - i,
    {
        if !eq_text(path[i].as_str(), prefix[i].as_str()) {
            proof {
                assert(path_view(path@)[i as int] != path_view(prefix@)[i as int]);
                assert(path_view(path@).take(prefix.len() as int)[i as int] != path_view(
                    prefix@,
                )[i as int]);
            }
            return false;
        }
        proof {
            assert(path_view(path@).take(i + 1) =~= path_view(path@).take(i as int).push(
                path_view(path@)[i as int],
            ));
            assert(path_view(prefix@).take(i + 1) =~= path_view(prefix@).take(i as int).push(
                path_view(prefix@)[i as int],
            ));
        }
        i = i + 1;
    }
    proof {
        assert(path_view(prefix@).take(prefix.len() as int) =~= path_view(prefix@));
    }
    true
}

} // verus!
