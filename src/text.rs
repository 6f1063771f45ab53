use vstd::prelude::*;

verus! {

/// Lexicographic order on character sequences, by code point.
pub open spec fn text_le(a: Seq<char>, b: Seq<char>) -> bool
    decreases a.len(),
{
    if a.len() == 0 {
        true
    } else if b.len() == 0 {
        false
    } else if a[0] < b[0] {
        true
    } else if a[0] > b[0] {
        false
    } else {
        text_le(a.drop_first(), b.drop_first())
    }
}

pub open spec fn text_lt(a: Seq<char>, b: Seq<char>) -> bool {
    text_le(a, b) && a != b
}

pub proof fn lemma_text_le_total(a: Seq<char>, b: Seq<char>)
    ensures
        text_le(a, b) || text_le(b, a),
    decreases a.len(),
{
    if a.len() > 0 && b.len() > 0 && a[0] == b[0] {
        lemma_text_le_total(a.drop_first(), b.drop_first());
    } else if a.len() > 0 && b.len() > 0 && a[0] != b[0] {
        assert(a[0] < b[0] || a[0] > b[0]);
    }
}

pub proof fn lemma_text_le_antisym(a: Seq<char>, b: Seq<char>)
    requires
        text_le(a, b),
        text_le(b, a),
    ensures
        a == b,
    decreases a.len(),
{
    if a.len() > 0 && b.len() > 0 {
        lemma_text_le_antisym(a.drop_first(), b.drop_first());
        assert(a[0] == b[0]);
        assert(a =~= seq![a[0]] + a.drop_first());
        assert(b =~= seq![b[0]] + b.drop_first());
    }
}

pub proof fn lemma_text_le_trans(a: Seq<char>, b: Seq<char>, c: Seq<char>)
    requires
        text_le(a, b),
        text_le(b, c),
    ensures
        text_le(a, c),
    decreases a.len(),
{
    if a.len() > 0 && b.len() > 0 && c.len() > 0 && a[0] == b[0] && b[0] == c[0] {
        lemma_text_le_trans(a.drop_first(), b.drop_first(), c.drop_first());
    }
}

pub proof fn lemma_text_le_refl(a: Seq<char>)
    ensures
        text_le(a, a),
    decreases a.len(),
{
    if a.len() > 0 {
        lemma_text_le_refl(a.drop_first());
    }
}

/// Whether `a` comes no later than `b` in code-point order.
pub fn le_text(a: &str, b: &str) -> (r: bool)
    ensures
        r == text_le(a@, b@),
{
    let la = a.unicode_len();
    let lb = b.unicode_len();
    let mut i: usize = 0;
    assert(a@.skip(0) =~= a@);
    assert(b@.skip(0) =~= b@);
    while i < la && i < lb
        invariant
            la == a@.len(),
            lb == b@.len(),
            i <= la,
            i <= lb,
            text_le(a@, b@) == text_le(a@.skip(i as int), b@.skip(i as int)),
        decreases la - i,
    {
        let ca = a.get_char(i);
        let cb = b.get_char(i);
        assert(a@.skip(i as int)[0] == ca);
        assert(b@.skip(i as int)[0] == cb);
        if ca < cb {
            return true;
        }
        if ca > cb {
            return false;
        }
        assert(a@.skip(i as int).drop_first() =~= a@.skip(i + 1));
        assert(b@.skip(i as int).drop_first() =~= b@.skip(i + 1));
        i = i + 1;
    }
    i == la
}

/// Whether the two texts hold the same characters.
pub fn eq_text(a: &str, b: &str) -> (r: bool)
    ensures
        r == (a@ == b@),
{
    let la = a.unicode_len();
    let lb = b.unicode_len();
    if la != lb {
        return false;
    }
    let mut i: usize = 0;
    while i < la
        invariant
            la == a@.len(),
            lb == b@.len(),
            la == lb,
            i <= la,
            a@.take(i as int) == b@.take(i as int),
        decreases la - i,
    {
        if a.get_char(i) != b.get_char(i) {
            assert(a@[i as int] != b@[i as int]);
            return false;
        }
        assert(a@.take(i + 1) =~= a@.take(i as int).push(a@[i as int]));
        assert(b@.take(i + 1) =~= b@.take(i as int).push(b@[i as int]));
        i = i + 1;
    }
    assert(a@ =~= a@.take(la as int));
    assert(b@ =~= b@.take(lb as int));
    true
}

/// `a` followed by `b`.
pub fn join_text(a: &str, b: &str) -> (r: String)
    ensures
        r@ == a@ + b@,
{
    a.to_owned().concat(b)
}

/// Whether `s` ends with `suffix`.
pub fn ends_with_text(s: &str, suffix: &str) -> (r: bool)
    ensures
        r == (suffix@.len() <= s@.len() && s@.skip(s@.len() - suffix@.len()) == suffix@),
{
    let ls = s.unicode_len();
    let lf = suffix.unicode_len();
    if lf > ls {
        return false;
    }
    let tail = s.substring_char(ls - lf, ls);
    eq_text(tail, suffix)
}

/// Whether `s` starts with `prefix`.
pub fn starts_with_text(s: &str, prefix: &str) -> (r: bool)
    ensures
        r == (prefix@.len() <= s@.len() && s@.take(prefix@.len() as int) == prefix@),
{
    let ls = s.unicode_len();
    let lp = prefix.unicode_len();
    if lp > ls {
        return false;
    }
    let head = s.substring_char(0, lp);
    eq_text(head, prefix)
}

/// Index of the last `.` in `s`, if any.
pub open spec fn last_dot(s: Seq<char>) -> Option<int>
    decreases s.len(),
{
    if s.len() == 0 {
        None
    } else if s.last() == '.' {
        Some(s.len() - 1)
    } else {
        last_dot(s.drop_last())
    }
}

/// The stem of a file name, as `Path::file_stem` gives it: everything before
/// the last `.`, unless that dot is the first character or the name is `..`.
pub open spec fn stem_of(name: Seq<char>) -> Seq<char> {
    if name == seq!['.', '.'] {
        name
    } else {
        match last_dot(name) {
            Some(i) if i > 0 => name.take(i),
            _ => name,
        }
    }
}

proof fn lemma_last_dot_bound(s: Seq<char>)
    ensures
        last_dot(s) matches Some(i) ==> 0 <= i < s.len() && s[i] == '.',
        last_dot(s) is None ==> forall|k: int| 0 <= k < s.len() ==> s[k] != '.',
    decreases s.len(),
{
    if s.len() > 0 && s.last() != '.' {
        lemma_last_dot_bound(s.drop_last());
        if last_dot(s) is None {
            assert forall|k: int| 0 <= k < s.len() implies s[k] != '.' by {
                if k < s.len() - 1 {
                    assert(s.drop_last()[k] == s[k]);
                }
            }
        }
    }
}

/// The file stem of `name`.
pub fn file_stem(name: &str) -> (r: String)
    ensures
        r@ == stem_of(name@),
{
    let n = name.unicode_len();
    let mut i: usize = n;
    assert(name@.take(n as int) =~= name@);
    while i > 0 && name.get_char(i - 1) != '.'
        invariant
            i <= n,
            n == name@.len(),
            last_dot(name@) == last_dot(name@.take(i as int)),
        decreases i,
    {
        assert(name@.take(i as int).drop_last() =~= name@.take(i - 1));
        i = i - 1;
    }
    proof {
        assert(name@.take(n as int) =~= name@);
        lemma_last_dot_bound(name@);
    }
    let dotdot = n == 2 && name.get_char(0) == '.' && name.get_char(1) == '.';
    proof {
        if n == 2 {
            if dotdot {
                assert(name@ =~= seq!['.', '.']);
            }
        }
    }
    if dotdot || i <= 1 {
        proof {
            if i == 1 {
                assert(name@.take(1).last() == '.');
                assert(last_dot(name@.take(1)) == Some(0int));
            }
        }
        name.to_string()
    } else {
        proof {
            assert(name@.take(i as int).last() == '.');
            assert(last_dot(name@.take(i as int)) == Some(i - 1));
            assert(name@ != seq!['.', '.']);
        }
        name.substring_char(0, i - 1).to_string()
    }
}

} // verus!
