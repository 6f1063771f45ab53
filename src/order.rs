use vstd::prelude::*;
use vstd::seq_lib::to_multiset_insert;

verus! {

/// The views of a sequence of values, element by element.
pub open spec fn views<T: View>(s: Seq<T>) -> Seq<T::V> {
    s.map_values(|e: T| e@)
}

/// A total preorder on the views of a type, decided by `le`.
pub trait CanonicalOrder: View + Sized {
    spec fn le_spec(a: Self::V, b: Self::V) -> bool;

    proof fn lemma_le_total(a: Self::V, b: Self::V)
        ensures
            Self::le_spec(a, b) || Self::le_spec(b, a),
    ;

    proof fn lemma_le_trans(a: Self::V, b: Self::V, c: Self::V)
        requires
            Self::le_spec(a, b),
            Self::le_spec(b, c),
        ensures
            Self::le_spec(a, c),
    ;

    proof fn lemma_le_antisym(a: Self::V, b: Self::V)
        requires
            Self::le_spec(a, b),
            Self::le_spec(b, a),
        ensures
            a == b,
    ;

    fn le(&self, other: &Self) -> (r: bool)
        ensures
            r == Self::le_spec(self@, other@),
    ;
}

/// Every element comes no later than every element after it.
pub open spec fn is_sorted<T: CanonicalOrder>(s: Seq<T::V>) -> bool {
    forall|i: int, j: int| 0 <= i < j < s.len() ==> #[trigger] T::le_spec(s[i], s[j])
}

/// Two sorted sequences that hold the same elements, each as often, are
/// equal: the canonical order leaves no choice.
pub proof fn lemma_sorted_unique<T: CanonicalOrder>(a: Seq<T::V>, b: Seq<T::V>)
    requires
        is_sorted::<T>(a),
        is_sorted::<T>(b),
        a.to_multiset() == b.to_multiset(),
    ensures
        a == b,
    decreases a.len(),
{
    broadcast use vstd::seq_lib::group_to_multiset_ensures;

    assert(a.len() == a.to_multiset().len());
    assert(b.len() == b.to_multiset().len());
    if a.len() > 0 {
        assert(a.contains(a[0]));
        assert(b.to_multiset().count(a[0]) > 0);
        assert(b.contains(a[0]));
        let j = choose|j: int| 0 <= j < b.len() && b[j] == a[0];
        if j > 0 {
            assert(T::le_spec(b[0], b[j]));
        } else {
            T::lemma_le_total(b[0], b[0]);
        }
        assert(b.contains(b[0]));
        assert(a.to_multiset().count(b[0]) > 0);
        assert(a.contains(b[0]));
        let k = choose|k: int| 0 <= k < a.len() && a[k] == b[0];
        if k > 0 {
            assert(T::le_spec(a[0], a[k]));
        } else {
            T::lemma_le_total(a[0], a[0]);
        }
        T::lemma_le_antisym(a[0], b[0]);
        let ra = a.drop_first();
        let rb = b.drop_first();
        assert(a.remove(0) =~= ra);
        assert(b.remove(0) =~= rb);
        assert(ra.to_multiset() == a.to_multiset().remove(a[0]));
        assert(rb.to_multiset() == b.to_multiset().remove(b[0]));
        assert forall|x: int, y: int| 0 <= x < y < ra.len() implies #[trigger] T::le_spec(
            ra[x],
            ra[y],
        ) by {
            assert(T::le_spec(a[x + 1], a[y + 1]));
        }
        assert forall|x: int, y: int| 0 <= x < y < rb.len() implies #[trigger] T::le_spec(
            rb[x],
            rb[y],
        ) by {
            assert(T::le_spec(b[x + 1], b[y + 1]));
        }
        lemma_sorted_unique::<T>(ra, rb);
        assert forall|i: int| 0 <= i < a.len() implies a[i] == b[i] by {
            if i > 0 {
                assert(a[i] == ra[i - 1]);
                assert(b[i] == rb[i - 1]);
            }
        }
        assert(a =~= b);
    }
}

/// Sorts `v` into the canonical order: the result is sorted and holds the
/// same elements, each as often as `v` does.
pub fn sort_canonical<T: CanonicalOrder>(v: Vec<T>) -> (r: Vec<T>)
    ensures
        is_sorted::<T>(views(r@)),
        views(r@).to_multiset() == views(v@).to_multiset(),
{
    let mut input = v;
    let mut out: Vec<T> = Vec::new();
    proof {
        assert(views(v@) =~= views(input@) + views(out@));
    }
    while input.len() > 0
        invariant
            is_sorted::<T>(views(out@)),
            views(v@).to_multiset() == (views(input@) + views(out@)).to_multiset(),
        decreases input.len(),
    {
        let ghost before_in = input@;
        let ghost before_out = out@;
        let x = input.pop().unwrap();
        let mut p: usize = 0;
        while p < out.len() && !x.le(&out[p])
            invariant
                p <= out.len(),
                out@ == before_out,
                forall|k: int| 0 <= k < p ==> T::le_spec(out@[k]@, x@),
            decreases out.len() - p,
        {
            proof {
                T::lemma_le_total(x@, out@[p as int]@);
            }
            p = p + 1;
        }
        proof {
            if p < out.len() {
                assert forall|j: int| p <= j < out.len() implies T::le_spec(x@, out@[j]@) by {
                    if j > p {
                        assert(T::le_spec(views(out@)[p as int], views(out@)[j]));
                        T::lemma_le_trans(x@, out@[p as int]@, out@[j]@);
                    }
                }
            }
        }
        out.insert(p, x);
        proof {
            let vo = views(out@);
            assert(vo =~= views(before_out).insert(p as int, x@));
            assert forall|i: int, j: int| 0 <= i < j < vo.len() implies #[trigger] T::le_spec(
                vo[i],
                vo[j],
            ) by {
                if j < p {
                    assert(T::le_spec(views(before_out)[i], views(before_out)[j]));
                } else if i > p {
                    assert(T::le_spec(views(before_out)[i - 1], views(before_out)[j - 1]));
                } else if i < p && j > p {
                    assert(T::le_spec(views(before_out)[i], views(before_out)[j - 1]));
                }
            }
            assert(views(before_in) =~= views(input@).push(x@));
            to_multiset_insert(views(before_out), p as int, x@);
            assert((views(before_in) + views(before_out)).to_multiset() =~= (views(input@)
                + vo).to_multiset()) by {
                vstd::seq_lib::lemma_multiset_commutative(views(before_in), views(before_out));
                vstd::seq_lib::lemma_multiset_commutative(views(input@), vo);
                vstd::seq_lib::to_multiset_build(views(input@), x@);
            }
        }
    }
    proof {
        assert(views(input@) + views(out@) =~= views(out@));
    }
    out
}

} // verus!
