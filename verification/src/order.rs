//! The order of strings, and sorting by it.

use vstd::prelude::*;
use vstd::utf8::encode_utf8;

use crate::text::Text;

verus! {

/// Whether `a` comes no later than `b` in the dictionary order of bytes.
pub open spec fn bytes_le(a: Seq<u8>, b: Seq<u8>) -> bool
    decreases a.len(),
{
    a.len() == 0 || (b.len() > 0 && (a[0] < b[0] || (a[0] == b[0] && bytes_le(
        a.drop_first(),
        b.drop_first(),
    ))))
}

/// Whether `a` comes no later than `b`: strings are ordered by their UTF-8 bytes.
pub open spec fn text_le(a: Text, b: Text) -> bool {
    bytes_le(encode_utf8(a), encode_utf8(b))
}

/// `text_le` as a relation.
pub open spec fn text_order() -> spec_fn(Text, Text) -> bool {
    |a: Text, b: Text| text_le(a, b)
}

/// The texts of `list` in ascending order.
pub open spec fn sorted(list: Seq<Text>) -> Seq<Text> {
    list.sort_by(text_order())
}

proof fn lemma_bytes_le_reflexive(a: Seq<u8>)
    ensures
        bytes_le(a, a),
    decreases a.len(),
{
    if a.len() > 0 {
        lemma_bytes_le_reflexive(a.drop_first());
    }
}

proof fn lemma_bytes_le_antisymmetric(a: Seq<u8>, b: Seq<u8>)
    requires
        bytes_le(a, b),
        bytes_le(b, a),
    ensures
        a == b,
    decreases a.len(),
{
    if a.len() > 0 && b.len() > 0 {
        lemma_bytes_le_antisymmetric(a.drop_first(), b.drop_first());
        assert(a =~= seq![a[0]] + a.drop_first());
        assert(b =~= seq![b[0]] + b.drop_first());
    } else {
        assert(a =~= b);
    }
}

proof fn lemma_bytes_le_transitive(a: Seq<u8>, b: Seq<u8>, c: Seq<u8>)
    requires
        bytes_le(a, b),
        bytes_le(b, c),
    ensures
        bytes_le(a, c),
    decreases a.len(),
{
    if a.len() > 0 && a[0] == b[0] && b[0] == c[0] {
        lemma_bytes_le_transitive(a.drop_first(), b.drop_first(), c.drop_first());
    }
}

proof fn lemma_bytes_le_total(a: Seq<u8>, b: Seq<u8>)
    ensures
        bytes_le(a, b) || bytes_le(b, a),
    decreases a.len(),
{
    if a.len() > 0 && b.len() > 0 && a[0] == b[0] {
        lemma_bytes_le_total(a.drop_first(), b.drop_first());
    }
}

/// The order of strings is total, so sorting has one result.
pub proof fn lemma_text_order()
    ensures
        vstd::relations::total_ordering(text_order()),
{
    let le = text_order();
    assert forall|a: Text| #[trigger] le(a, a) by {
        lemma_bytes_le_reflexive(encode_utf8(a));
    }
    assert forall|a: Text, b: Text| #[trigger] le(a, b) && #[trigger] le(b, a) implies a == b by {
        lemma_bytes_le_antisymmetric(encode_utf8(a), encode_utf8(b));
        vstd::utf8::encode_utf8_decode_utf8(a);
        vstd::utf8::encode_utf8_decode_utf8(b);
    }
    assert forall|a: Text, b: Text, c: Text| #[trigger]
        le(a, b) && #[trigger] le(b, c) implies le(a, c) by {
        lemma_bytes_le_transitive(encode_utf8(a), encode_utf8(b), encode_utf8(c));
    }
    assert forall|a: Text, b: Text| #[trigger] le(a, b) || #[trigger] le(b, a) by {
        lemma_bytes_le_total(encode_utf8(a), encode_utf8(b));
    }
}

/// Sorting forgets the order in which the texts were given.
pub proof fn lemma_sorted_forgets_order(a: Seq<Text>, b: Seq<Text>)
    requires
        a.to_multiset() == b.to_multiset(),
    ensures
        sorted(a) == sorted(b),
{
    lemma_text_order();
    a.lemma_sort_by_ensures(text_order());
    b.lemma_sort_by_ensures(text_order());
    vstd::seq_lib::lemma_sorted_unique(sorted(a), sorted(b), text_order());
}

/// Whether `a` comes no later than `b` in the order of strings.
pub fn not_after(a: &str, b: &str) -> (le: bool)
    ensures
        le == text_le(a@, b@),
{
    let x = a.as_bytes();
    let y = b.as_bytes();
    let mut i: usize = 0;
    assert(x@.skip(0) =~= x@);
    assert(y@.skip(0) =~= y@);
    loop
        invariant
            i <= x@.len(),
            i <= y@.len(),
            x@ == encode_utf8(a@),
            y@ == encode_utf8(b@),
            bytes_le(x@, y@) == bytes_le(x@.skip(i as int), y@.skip(i as int)),
        decreases x@.len() - i,
    {
        let ghost s = x@.skip(i as int);
        let ghost t = y@.skip(i as int);
        if i == x.len() {
            return true;
        }
        if i == y.len() {
            return false;
        }
        assert(s[0] == x@[i as int] && t[0] == y@[i as int]);
        if x[i] != y[i] {
            return x[i] < y[i];
        }
        i += 1;
        assert(s.drop_first() =~= x@.skip(i as int));
        assert(t.drop_first() =~= y@.skip(i as int));
    }
}

/// Inserting adds one occurrence.
proof fn lemma_insert_multiset(s: Seq<Text>, at: int, t: Text)
    requires
        0 <= at <= s.len(),
    ensures
        s.insert(at, t).to_multiset() =~= s.to_multiset().insert(t),
{
    broadcast use vstd::seq_lib::group_to_multiset_ensures;

    let w = s.insert(at, t);
    assert(w.remove(at) =~= s);
    assert(w[at] == t);
    assert(w.contains(t));
    assert(w.to_multiset().count(t) > 0);
    assert(w.remove(at).to_multiset() =~= w.to_multiset().remove(t));
}

/// The strings of `list` in ascending order.
pub fn sort_texts(list: &[String]) -> (r: Vec<String>)
    ensures
        r.deep_view() == sorted(list.deep_view()),
{
    let ghost all = list.deep_view();
    let ghost le = text_order();
    let mut r: Vec<String> = Vec::new();
    let mut i: usize = 0;
    proof {
        lemma_text_order();
    }
    assert(r.deep_view() =~= Seq::<Text>::empty());
    assert(all.take(0) =~= Seq::<Text>::empty());
    while i < list.len()
        invariant
            i <= list@.len(),
            all == list.deep_view(),
            le == text_order(),
            vstd::relations::total_ordering(le),
            vstd::relations::sorted_by(r.deep_view(), le),
            r.deep_view().to_multiset() == all.take(i as int).to_multiset(),
        decreases list@.len() - i,
    {
        let ghost before = r.deep_view();
        let item = list[i].clone();
        let ghost t = item@;
        let mut at: usize = r.len();
        while at > 0 && !not_after(r[at - 1].as_str(), item.as_str())
            invariant
                at <= r@.len(),
                before == r.deep_view(),
                t == item@,
                le == text_order(),
                vstd::relations::total_ordering(le),
                vstd::relations::sorted_by(before, le),
                forall|j: int| at <= j < before.len() ==> le(t, #[trigger] before[j]),
            decreases at,
        {
            assert(le(t, before[at - 1]) || le(before[at - 1], t));
            at -= 1;
        }
        r.insert(at, item);
        proof {
            assert(r.deep_view() =~= before.insert(at as int, t));
            assert(at > 0 ==> le(before[at - 1], t));
            assert forall|j: int| 0 <= j < at implies le(#[trigger] before[j], t) by {
                if j < at - 1 {
                    assert(le(before[j], before[at - 1]));
                }
            }
            lemma_insert_multiset(before, at as int, t);
            assert(all.take(i + 1) =~= all.take(i as int).push(t));
            vstd::seq_lib::to_multiset_build(all.take(i as int), t);
            let now = r.deep_view();
            assert forall|j: int, k: int| 0 <= j < k < now.len() implies #[trigger] le(
                now[j],
                now[k],
            ) by {
                let jj = if j > at { j - 1 } else { j };
                let kk = if k > at { k - 1 } else { k };
                if j != at && k != at {
                    assert(le(before[jj], before[kk]));
                } else if j == at {
                    assert(now[k] == before[kk]);
                } else {
                    assert(now[j] == before[jj]);
                }
            }
        }
        i += 1;
    }
    proof {
        assert(all.take(i as int) =~= all);
        all.lemma_sort_by_ensures(le);
        vstd::seq_lib::lemma_sorted_unique(r.deep_view(), sorted(all), le);
    }
    r
}

} // verus!
