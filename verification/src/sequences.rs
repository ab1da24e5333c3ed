//! Facts about the results of a partial function on a sequence.

use vstd::prelude::*;

verus! {

/// Where every element gives a result, the results line up with the elements.
pub proof fn lemma_filter_map_total<A, B>(s: Seq<A>, f: spec_fn(A) -> Option<B>)
    requires
        forall|i: int| 0 <= i < s.len() ==> f(#[trigger] s[i]) is Some,
    ensures
        s.filter_map(f).len() == s.len(),
        forall|i: int| 0 <= i < s.len() ==> #[trigger] s.filter_map(f)[i] == f(s[i])->0,
    decreases s.len(),
{
    if s.len() > 0 {
        let rest = s.drop_last();
        assert forall|i: int| 0 <= i < rest.len() implies f(#[trigger] rest[i]) is Some by {
            assert(rest[i] == s[i]);
        }
        lemma_filter_map_total(rest, f);
        assert(f(s[s.len() - 1]) is Some);
        assert forall|i: int| 0 <= i < s.len() implies #[trigger] s.filter_map(f)[i] == f(
            s[i],
        )->0 by {
            if i < rest.len() {
                assert(s.filter_map(f)[i] == rest.filter_map(f)[i]);
            }
        }
    }
}

/// What an element gives is among the results.
pub proof fn lemma_filter_map_keeps<A, B>(s: Seq<A>, f: spec_fn(A) -> Option<B>, i: int)
    requires
        0 <= i < s.len(),
        f(s[i]) is Some,
    ensures
        s.filter_map(f).contains(f(s[i])->0),
    decreases s.len(),
{
    let rest = s.drop_last();
    let all = s.filter_map(f);
    if i < rest.len() {
        lemma_filter_map_keeps(rest, f, i);
        let k = choose|k: int|
            0 <= k < rest.filter_map(f).len() && rest.filter_map(f)[k] == f(s[i])->0;
        assert(all[k] == f(s[i])->0);
    } else {
        assert(all[all.len() - 1] == f(s[i])->0);
    }
}

/// Two functions that agree on the elements give the same results.
pub proof fn lemma_filter_map_agrees<A, B>(
    s: Seq<A>,
    f: spec_fn(A) -> Option<B>,
    g: spec_fn(A) -> Option<B>,
)
    requires
        forall|i: int| 0 <= i < s.len() ==> f(#[trigger] s[i]) == g(s[i]),
    ensures
        s.filter_map(f) == s.filter_map(g),
    decreases s.len(),
{
    if s.len() > 0 {
        let rest = s.drop_last();
        assert forall|i: int| 0 <= i < rest.len() implies f(#[trigger] rest[i]) == g(rest[i]) by {
            assert(rest[i] == s[i]);
        }
        lemma_filter_map_agrees(rest, f, g);
        assert(f(s[s.len() - 1]) == g(s[s.len() - 1]));
    }
}

/// Every result comes from some element.
pub proof fn lemma_filter_map_source<A, B>(s: Seq<A>, f: spec_fn(A) -> Option<B>, b: B) -> (i: int)
    requires
        s.filter_map(f).contains(b),
    ensures
        0 <= i < s.len(),
        f(s[i]) == Some(b),
    decreases s.len(),
{
    let rest = s.drop_last();
    let all = s.filter_map(f);
    let k = choose|k: int| 0 <= k < all.len() && all[k] == b;
    if k < rest.filter_map(f).len() {
        assert(rest.filter_map(f)[k] == b);
        lemma_filter_map_source(rest, f, b)
    } else {
        s.len() - 1
    }
}

/// The results come from the elements that give one, in their order, each once.
pub proof fn lemma_filter_map_indices<A, B>(s: Seq<A>, f: spec_fn(A) -> Option<B>) -> (at: Seq<int>)
    ensures
        at.len() == s.filter_map(f).len(),
        forall|k: int|
            0 <= k < at.len() ==> 0 <= #[trigger] at[k] < s.len() && f(s[at[k]]) == Some(
                s.filter_map(f)[k],
            ),
        forall|k: int, l: int| 0 <= k < l < at.len() ==> #[trigger] at[k] < #[trigger] at[l],
        forall|i: int| 0 <= i < s.len() && f(#[trigger] s[i]) is Some ==> at.contains(i),
    decreases s.len(),
{
    if s.len() == 0 {
        Seq::empty()
    } else {
        let rest = s.drop_last();
        let before = lemma_filter_map_indices(rest, f);
        let n = s.len() - 1;
        if f(s.last()) is Some {
            let at = before.push(n);
            assert forall|k: int| 0 <= k < at.len() implies 0 <= #[trigger] at[k] < s.len() && f(
                s[at[k]],
            ) == Some(s.filter_map(f)[k]) by {
                if k < before.len() {
                    assert(at[k] == before[k]);
                    assert(rest[at[k]] == s[at[k]]);
                }
            }
            assert forall|i: int| 0 <= i < s.len() && f(
                #[trigger] s[i],
            ) is Some implies at.contains(i) by {
                if i < n {
                    assert(rest[i] == s[i]);
                    let k = choose|k: int| 0 <= k < before.len() && before[k] == i;
                    assert(at[k] == i);
                } else {
                    assert(at[at.len() - 1] == i);
                }
            }
            at
        } else {
            assert forall|k: int| 0 <= k < before.len() implies 0 <= #[trigger] before[k] < s.len()
                && f(s[before[k]]) == Some(s.filter_map(f)[k]) by {
                assert(rest[before[k]] == s[before[k]]);
            }
            assert forall|i: int| 0 <= i < s.len() && f(
                #[trigger] s[i],
            ) is Some implies before.contains(i) by {
                assert(i < n);
                assert(rest[i] == s[i]);
            }
            before
        }
    }
}

/// Results of a concatenation are those of its parts.
pub proof fn lemma_filter_map_concat<A, B>(a: Seq<A>, b: Seq<A>, f: spec_fn(A) -> Option<B>)
    ensures
        (a + b).filter_map(f) == a.filter_map(f) + b.filter_map(f),
    decreases b.len(),
{
    if b.len() == 0 {
        assert(a + b =~= a);
        assert(a.filter_map(f) + b.filter_map(f) =~= a.filter_map(f));
    } else {
        lemma_filter_map_concat(a, b.drop_last(), f);
        assert((a + b).drop_last() =~= a + b.drop_last());
        assert((a + b).last() == b.last());
        assert((a + b).filter_map(f) =~= a.filter_map(f) + b.filter_map(f));
    }
}

} // verus!
