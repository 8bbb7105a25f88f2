//! Removal of repeated names, done by `itertools`.

use itertools::Itertools;
use vstd::prelude::*;

verus! {

/// The elements of `s` without repetitions: each element stands where it
/// first occurs, and later occurrences are left out.
pub open spec fn first_occurrences<A>(s: Seq<A>) -> Seq<A>
    decreases s.len(),
{
    if s.len() == 0 {
        s
    } else {
        let seen = first_occurrences(s.drop_last());
        if seen.contains(s.last()) {
            seen
        } else {
            seen.push(s.last())
        }
    }
}

/// The names without repetitions, by `Itertools::unique`.
///
/// Not proved, taken from the documentation of `unique`: the adaptor passes on
/// each element that it has not passed on before and drops the others, so the
/// elements come out in the order of their first occurrence. It tells two
/// strings apart by `Eq` and `Hash`, which for `String` go by the characters.
#[verifier::external_body]
pub(crate) fn unique_names(names: Vec<String>) -> (out: Vec<String>)
    ensures
        out.deep_view() == first_occurrences(names.deep_view()),
{
    names.into_iter().unique().collect()
}

/// In `s`, `a` is seen before `b`: `a` stands at a place up to which `b`
/// does not occur.
pub open spec fn seen_before<A>(s: Seq<A>, a: A, b: A) -> bool {
    exists|k: int|
        0 <= k < s.len() && #[trigger] s[k] == a && forall|m: int|
            0 <= m <= k ==> #[trigger] s[m] != b
}

/// What `first_occurrences` leaves: no element twice, every element of `s`
/// and no other, and the elements in the order in which `s` first shows them.
pub proof fn lemma_first_occurrences<A>(s: Seq<A>)
    ensures
        first_occurrences(s).no_duplicates(),
        forall|x: A| first_occurrences(s).contains(x) <==> s.contains(x),
        forall|i: int, j: int|
            0 <= i < j < first_occurrences(s).len() ==> seen_before(
                s,
                #[trigger] first_occurrences(s)[i],
                #[trigger] first_occurrences(s)[j],
            ),
    decreases s.len(),
{
    let r = first_occurrences(s);
    if s.len() > 0 {
        let p = s.drop_last();
        let l = s.last();
        let rp = first_occurrences(p);
        lemma_first_occurrences(p);
        assert forall|x: A| r.contains(x) <==> s.contains(x) by {
            if r.contains(x) {
                let i = choose|i: int| 0 <= i < r.len() && r[i] == x;
                if i < rp.len() {
                    assert(rp[i] == x);
                    assert(rp.contains(x));
                    assert(p.contains(x));
                    let k = choose|k: int| 0 <= k < p.len() && p[k] == x;
                    assert(s[k] == x);
                } else {
                    assert(s[s.len() - 1] == x);
                }
            }
            if s.contains(x) {
                let k = choose|k: int| 0 <= k < s.len() && s[k] == x;
                if k < p.len() {
                    assert(p[k] == x);
                    assert(p.contains(x));
                    assert(rp.contains(x));
                    let i = choose|i: int| 0 <= i < rp.len() && rp[i] == x;
                    assert(r[i] == x);
                } else if rp.contains(l) {
                    let i = choose|i: int| 0 <= i < rp.len() && rp[i] == l;
                    assert(r[i] == x);
                } else {
                    assert(r[r.len() - 1] == x);
                }
            }
        }
        assert forall|i: int, j: int| 0 <= i < j < r.len() implies seen_before(
            s,
            #[trigger] r[i],
            #[trigger] r[j],
        ) by {
            if j < rp.len() {
                assert(seen_before(p, rp[i], rp[j]));
                let k = choose|k: int|
                    0 <= k < p.len() && #[trigger] p[k] == rp[i] && forall|m: int|
                        0 <= m <= k ==> #[trigger] p[m] != rp[j];
                assert(s[k] == r[i]);
                assert forall|m: int| 0 <= m <= k implies #[trigger] s[m] != r[j] by {
                    assert(p[m] != rp[j]);
                }
            } else {
                assert(r[j] == l && !rp.contains(l));
                assert(rp[i] == r[i]);
                assert(rp.contains(r[i]));
                assert(p.contains(r[i]));
                let k = choose|k: int| 0 <= k < p.len() && p[k] == r[i];
                assert(s[k] == r[i]);
                assert forall|m: int| 0 <= m <= k implies #[trigger] s[m] != r[j] by {
                    if s[m] == l {
                        assert(p[m] == l);
                        assert(p.contains(l));
                    }
                }
            }
        }
    }
}

} // verus!
