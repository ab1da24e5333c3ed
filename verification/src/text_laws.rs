//! What the operations on texts, their order and their hash are.

use vstd::prelude::*;
use vstd::utf8::encode_utf8;

use crate::hash::{canonical_form, fnv1a, leading_hex, rollup_hash};
use crate::order::{bytes_le, lemma_text_order, sorted, text_le, text_order};
use crate::text::{
    decimal, digit, distinct, is_qualified, joined, lemma_distinct, lemma_prefix_length_is,
    lemma_replaced_concat, member_name, member_view, replaced, upper, Text,
};

verus! {

/// A replacement goes through a text character by character: the target becomes
/// the replacement, and every other character stays.
pub proof fn replacement_is_by_character(a: Text, b: Text, c: char, target: char, with: Text)
    ensures
        replaced(Seq::empty(), target, with) == Seq::<char>::empty(),
        replaced(seq![target], target, with) == with,
        c != target ==> replaced(seq![c], target, with) == seq![c],
        replaced(a + b, target, with) == replaced(a, target, with) + replaced(b, target, with),
{
    lemma_replaced_concat(a, b, target, with);
    assert(seq![target].drop_last() =~= Seq::<char>::empty());
    assert(seq![c].drop_last() =~= Seq::<char>::empty());
    assert(replaced(Seq::empty(), target, with) =~= Seq::<char>::empty());
    assert(replaced(seq![target], target, with) =~= with);
    if c != target {
        assert(replaced(seq![c], target, with) =~= seq![c]);
    }
}

/// Joining puts the separator between any two neighbours and nowhere else.
pub proof fn joining_separates_neighbours(a: Seq<Text>, t: Text, b: Seq<Text>, separator: Text)
    ensures
        joined(Seq::empty(), separator) == Seq::<char>::empty(),
        joined(seq![t], separator) == t,
        a.len() > 0 && b.len() > 0 ==> joined(a + b, separator) == joined(a, separator) + separator
            + joined(b, separator),
    decreases b.len(),
{
    if a.len() > 0 && b.len() > 0 {
        assert((a + b).drop_last() =~= a + b.drop_last());
        assert((a + b).last() == b.last());
        if b.len() == 1 {
            assert(a + b.drop_last() =~= a);
        } else {
            joining_separates_neighbours(a, t, b.drop_last(), separator);
            assert(joined(a + b, separator) =~= joined(a, separator) + separator + joined(
                b,
                separator,
            ));
        }
    }
}

/// A member reference is split at its first dot into view and name, and the name
/// ends at the next dot. A reference without a dot is a name alone.
pub proof fn members_split_at_their_dots(view: Text, name: Text, rest: Text)
    requires
        !view.contains('.'),
        !name.contains('.'),
    ensures
        is_qualified(view + seq!['.'] + name),
        member_view(view + seq!['.'] + name) == view,
        member_name(view + seq!['.'] + name) == name,
        is_qualified(view + seq!['.'] + name + seq!['.'] + rest),
        member_view(view + seq!['.'] + name + seq!['.'] + rest) == view,
        member_name(view + seq!['.'] + name + seq!['.'] + rest) == name,
        !is_qualified(name),
        member_name(name) == name,
{
    let short = view + seq!['.'] + name;
    let long = view + seq!['.'] + name + seq!['.'] + rest;
    let n = view.len() as int;
    assert(forall|i: int| 0 <= i < n ==> view[i] != '.');
    assert(forall|i: int| 0 <= i < name.len() ==> name[i] != '.');
    lemma_prefix_length_is(short, '.', n);
    lemma_prefix_length_is(long, '.', n);
    lemma_prefix_length_is(name, '.', name.len() as int);
    assert(short.take(n) =~= view);
    assert(long.take(n) =~= view);
    assert(short.skip(n + 1) =~= name);
    assert(name.take(name.len() as int) =~= name);
    let tail = long.skip(n + 1);
    assert(tail =~= name + seq!['.'] + rest);
    lemma_prefix_length_is(tail, '.', name.len() as int);
    assert(tail.take(name.len() as int) =~= name);
}

/// Whether some `a` of the list comes before every `b` of the list.
pub open spec fn occurs_before(list: Seq<Text>, a: Text, b: Text) -> bool {
    exists|p: int|
        0 <= p < list.len() && #[trigger] list[p] == a && forall|q: int|
            0 <= q < list.len() && #[trigger] list[q] == b ==> p < q
}

/// Dropping repeats keeps one of each text, and these in the order in which they
/// first occur.
pub proof fn repeats_go_and_order_stays(list: Seq<Text>, t: Text, i: int, j: int)
    requires
        0 <= i < j < distinct(list).len(),
    ensures
        distinct(list).no_duplicates(),
        distinct(list).contains(t) <==> list.contains(t),
        occurs_before(list, distinct(list)[i], distinct(list)[j]),
    decreases list.len(),
{
    lemma_distinct(list);
    let d = distinct(list);
    let rest = list.drop_last();
    let before = distinct(rest);
    lemma_distinct(rest);
    if j < before.len() {
        repeats_go_and_order_stays(rest, t, i, j);
        let p = choose|p: int|
            0 <= p < rest.len() && #[trigger] rest[p] == before[i] && forall|q: int|
                0 <= q < rest.len() && #[trigger] rest[q] == before[j] ==> p < q;
        assert(list[p] == d[i]);
        assert forall|q: int| 0 <= q < list.len() && #[trigger] list[q] == d[j] implies p < q by {
            if q < rest.len() {
                assert(rest[q] == before[j]);
            }
        }
    } else {
        assert(before.contains(before[i]));
        assert(rest.contains(before[i]));
        let p = choose|p: int| 0 <= p < rest.len() && rest[p] == before[i];
        assert(list[p] == d[i]);
        assert(d[j] == list.last());
        assert forall|q: int| 0 <= q < list.len() && #[trigger] list[q] == d[j] implies p < q by {
            if q < rest.len() {
                assert(rest[q] == list.last());
                assert(rest.contains(list.last()));
            }
        }
    }
}

/// A number is written in decimal digits, and starts with a zero only where it is
/// zero.
pub proof fn decimals_have_no_leading_zero(n: nat, i: int)
    requires
        0 <= i < decimal(n).len(),
    ensures
        '0' <= decimal(n)[i] <= '9',
        decimal(n)[0] == '0' ==> n == 0 && decimal(n).len() == 1,
    decreases n,
{
    if n >= 10 {
        let head = decimal(n / 10);
        assert(head.len() > 0);
        decimals_have_no_leading_zero(n / 10, 0);
        if i < head.len() {
            decimals_have_no_leading_zero(n / 10, i);
        }
    }
}

/// Upper case keeps the length, moves the letters `a` to `z` to `A` to `Z`, and
/// leaves every other character.
pub proof fn upper_case_moves_letters(s: Text, i: int)
    requires
        0 <= i < s.len(),
    ensures
        upper(s).len() == s.len(),
        'a' <= s[i] <= 'z' ==> upper(s)[i] as int - 'A' as int == s[i] as int - 'a' as int,
        !('a' <= s[i] <= 'z') ==> upper(s)[i] == s[i],
{
}

/// Strings are ordered by the first byte in which they differ, and a string comes
/// before its continuations.
pub proof fn first_difference_decides(
    common: Seq<u8>,
    x: u8,
    y: u8,
    a: Seq<u8>,
    b: Seq<u8>,
)
    ensures
        bytes_le(common, common + a),
        a.len() > 0 ==> !bytes_le(common + a, common),
        x < y ==> bytes_le(common + seq![x] + a, common + seq![y] + b),
        x < y ==> !bytes_le(common + seq![y] + b, common + seq![x] + a),
    decreases common.len(),
{
    let p = common + seq![x] + a;
    let q = common + seq![y] + b;
    let w = common + a;
    if common.len() > 0 {
        let rest = common.drop_first();
        first_difference_decides(rest, x, y, a, b);
        assert(p.drop_first() =~= rest + seq![x] + a);
        assert(q.drop_first() =~= rest + seq![y] + b);
        assert(w.drop_first() =~= rest + a);
        assert(p[0] == common[0] && q[0] == common[0] && w[0] == common[0]);
    } else {
        assert(p[0] == x && q[0] == y);
    }
}

/// Sorting puts the same texts in ascending order of their UTF-8 bytes.
pub proof fn sorting_orders_the_same_texts(list: Seq<Text>)
    ensures
        sorted(list).to_multiset() == list.to_multiset(),
        forall|i: int, j: int|
            0 <= i < j < sorted(list).len() ==> bytes_le(
                encode_utf8(#[trigger] sorted(list)[i]),
                encode_utf8(#[trigger] sorted(list)[j]),
            ),
{
    lemma_text_order();
    list.lemma_sort_by_ensures(text_order());
    let le = text_order();
    assert forall|i: int, j: int| 0 <= i < j < sorted(list).len() implies bytes_le(
        encode_utf8(#[trigger] sorted(list)[i]),
        encode_utf8(#[trigger] sorted(list)[j]),
    ) by {
        assert(le(sorted(list)[i], sorted(list)[j]));
        assert(text_le(sorted(list)[i], sorted(list)[j]));
    }
}

/// FNV-1a starts from its offset, and takes in each byte by an exclusive or and a
/// multiplication with its prime, modulo two to the power of 64.
pub proof fn fnv_takes_in_each_byte(bytes: Seq<u8>, b: u8)
    ensures
        fnv1a(Seq::empty()) == 0xcbf29ce484222325u64,
        fnv1a(bytes.push(b)) as int == ((fnv1a(bytes) ^ (b as u64)) as int * 0x100000001b3)
            % 0x1_0000_0000_0000_0000,
{
    assert(bytes.push(b).drop_last() =~= bytes);
    assert(bytes.push(b).last() == b);
}

/// The value of a hexadecimal digit in lower case.
pub open spec fn hex_digit_value(c: char) -> int {
    if '0' <= c <= '9' {
        c as int - '0' as int
    } else {
        c as int - 'a' as int + 10
    }
}

/// The number that a text of hexadecimal digits stands for.
pub open spec fn hex_number(s: Text) -> int
    decreases s.len(),
{
    if s.len() == 0 {
        0
    } else {
        16 * hex_number(s.drop_last()) + hex_digit_value(s.last())
    }
}

proof fn lemma_hex_prefix(hash: u64, n: nat)
    requires
        1 <= n <= 8,
    ensures
        hex_number(leading_hex(hash).take(n as int)) == hash >> ((64 - 4 * n) as u64),
    decreases n,
{
    let s = leading_hex(hash).take(n as int);
    let shift = (64 - 4 * n) as u64;
    let d = (hash >> shift) & 0xf;
    assert(d < 16) by (bit_vector)
        requires
            d == (hash >> shift) & 0xf,
    ;
    assert(s.last() == digit(d as int));
    assert(hex_digit_value(digit(d as int)) == d);
    assert(s.drop_last() =~= leading_hex(hash).take(n - 1));
    if n == 1 {
        assert(hex_number(s.drop_last()) == 0);
        assert((hash >> 60) & 0xf == hash >> 60) by (bit_vector);
    } else {
        lemma_hex_prefix(hash, (n - 1) as nat);
        let wider = (shift + 4) as u64;
        assert(hash >> shift == 16 * (hash >> wider) + ((hash >> shift) & 0xf)) by (bit_vector)
            requires
                shift <= 56,
                wider == shift + 4,
        ;
    }
}

/// The digits of a rollup's hash are the upper half of the FNV-1a hash of its
/// canonical form.
pub proof fn hash_digits_are_the_upper_half(
    dims: Seq<Text>,
    measures: Seq<Text>,
    time_dim: Option<Text>,
    granularity: Option<Text>,
)
    ensures
        hex_number(rollup_hash(dims, measures, time_dim, granularity)) == fnv1a(
            encode_utf8(canonical_form(dims, measures, time_dim, granularity)),
        ) as int / 0x1_0000_0000,
{
    let hash = fnv1a(encode_utf8(canonical_form(dims, measures, time_dim, granularity)));
    lemma_hex_prefix(hash, 8);
    assert(leading_hex(hash).take(8) =~= leading_hex(hash));
    assert(hash >> 32 == hash / 0x1_0000_0000) by (bit_vector);
}

/// The canonical form lists the sorted dimensions, the sorted measures, the time
/// dimension and the granularity, each behind its mark. What there is not leaves
/// nothing.
pub proof fn canonical_form_lists_all_parts(
    dims: Seq<Text>,
    measures: Seq<Text>,
    time: Text,
    granularity: Text,
)
    ensures
        ({
            let lists = "d:"@ + joined(sorted(dims), ","@) + ";m:"@ + joined(
                sorted(measures),
                ","@,
            );
            &&& canonical_form(dims, measures, Some(time), Some(granularity)) == lists + ";t:"@
                + time + ";g:"@ + granularity
            &&& canonical_form(dims, measures, Some(time), None) == lists + ";t:"@ + time
                + ";g:"@
            &&& canonical_form(dims, measures, None, Some(granularity)) == lists + ";t:"@ + ";g:"@
                + granularity
            &&& canonical_form(dims, measures, None, None) == lists + ";t:"@ + ";g:"@
        }),
{
    let lists = "d:"@ + joined(sorted(dims), ","@) + ";m:"@ + joined(sorted(measures), ","@);
    assert(canonical_form(dims, measures, Some(time), None) =~= lists + ";t:"@ + time + ";g:"@);
    assert(canonical_form(dims, measures, None, Some(granularity)) =~= lists + ";t:"@ + ";g:"@
        + granularity);
    assert(canonical_form(dims, measures, None, None) =~= lists + ";t:"@ + ";g:"@);
}

} // verus!
