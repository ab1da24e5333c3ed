//! The short hash that names a rollup's table.

use vstd::prelude::*;
use vstd::utf8::encode_utf8;

use crate::order::{lemma_sorted_forgets_order, sort_texts, sorted};
use crate::text::{digit, digit_of, join, joined, Text};

verus! {

/// The start value of 64-bit FNV-1a.
pub const FNV_OFFSET: u64 = 0xcbf29ce484222325;

/// The multiplier of 64-bit FNV-1a.
pub const FNV_PRIME: u64 = 0x100000001b3;

/// The 64-bit FNV-1a hash of `bytes`.
pub open spec fn fnv1a(bytes: Seq<u8>) -> u64
    decreases bytes.len(),
{
    if bytes.len() == 0 {
        FNV_OFFSET
    } else {
        (fnv1a(bytes.drop_last()) ^ (bytes.last() as u64)).wrapping_mul(FNV_PRIME)
    }
}

/// The eight leading digits of `hash` in sixteen-digit hexadecimal.
pub open spec fn leading_hex(hash: u64) -> Text {
    Seq::new(8, |i: int| digit(((hash >> ((60 - 4 * i) as u64)) & 0xf) as int))
}

/// The text of an optional part of the canonical form.
pub open spec fn or_empty(part: Option<Text>) -> Text {
    match part {
        Some(text) => text,
        None => Seq::empty(),
    }
}

/// What a rollup is hashed by: its sorted dimensions and measures, its time
/// dimension and its granularity.
pub open spec fn canonical_form(
    dims: Seq<Text>,
    measures: Seq<Text>,
    time_dim: Option<Text>,
    granularity: Option<Text>,
) -> Text {
    "d:"@ + joined(sorted(dims), ","@) + ";m:"@ + joined(sorted(measures), ","@) + ";t:"@
        + or_empty(time_dim) + ";g:"@ + or_empty(granularity)
}

/// The hash of a rollup.
pub open spec fn rollup_hash(
    dims: Seq<Text>,
    measures: Seq<Text>,
    time_dim: Option<Text>,
    granularity: Option<Text>,
) -> Text {
    leading_hex(fnv1a(encode_utf8(canonical_form(dims, measures, time_dim, granularity))))
}

/// Whether `c` is a lower-case hexadecimal digit.
pub open spec fn is_hex_digit(c: char) -> bool {
    exists|d: int| 0 <= d < 16 && c == digit(d)
}

fn fnv1a_of(bytes: &[u8]) -> (hash: u64)
    ensures
        hash == fnv1a(bytes@),
{
    let mut hash: u64 = FNV_OFFSET;
    let mut i: usize = 0;
    while i < bytes.len()
        invariant
            i <= bytes@.len(),
            hash == fnv1a(bytes@.take(i as int)),
        decreases bytes@.len() - i,
    {
        hash = (hash ^ (bytes[i] as u64)).wrapping_mul(FNV_PRIME);
        i += 1;
        assert(bytes@.take(i as int).drop_last() =~= bytes@.take(i - 1));
    }
    assert(bytes@.take(i as int) =~= bytes@);
    hash
}

fn write_leading_hex(hash: u64) -> (s: String)
    ensures
        s@ == leading_hex(hash),
{
    let mut s = String::new();
    let mut i: u64 = 0;
    while i < 8
        invariant
            i <= 8,
            s@ == leading_hex(hash).take(i as int),
        decreases 8 - i,
    {
        let shift: u64 = 60 - 4 * i;
        let d: u64 = (hash >> shift) & 0xf;
        assert((hash >> shift) & 0xf < 16) by (bit_vector);
        s.push(digit_of(d));
        i += 1;
        assert(s@ =~= leading_hex(hash).take(i as int));
    }
    assert(s@ =~= leading_hex(hash));
    s
}

/// Computes the hash of a rollup: eight hexadecimal digits that depend on which
/// dimensions and measures it has, not on their order.
pub fn compute_rollup_hash(
    dims: &[String],
    measures: &[String],
    time_dim: Option<&str>,
    granularity: Option<&str>,
) -> (hash: String)
    ensures
        hash@ == rollup_hash(
            dims.deep_view(),
            measures.deep_view(),
            time_dim.deep_view(),
            granularity.deep_view(),
        ),
        hash@.len() == 8,
{
    let sorted_dims = sort_texts(dims);
    let sorted_measures = sort_texts(measures);
    let mut canonical = "d:".to_string();
    canonical.append(join(&sorted_dims, ",").as_str());
    canonical.append(";m:");
    canonical.append(join(&sorted_measures, ",").as_str());
    canonical.append(";t:");
    let ghost before_time = canonical@;
    if let Some(t) = time_dim {
        canonical.append(t);
    }
    assert(canonical@ =~= before_time + or_empty(time_dim.deep_view()));
    canonical.append(";g:");
    let ghost before_granularity = canonical@;
    if let Some(g) = granularity {
        canonical.append(g);
    }
    assert(canonical@ =~= before_granularity + or_empty(granularity.deep_view()));
    let text = canonical.as_str();
    write_leading_hex(fnv1a_of(text.as_bytes()))
}

/// The hash does not depend on the order in which dimensions and measures are
/// listed.
pub proof fn hash_is_order_independent(
    dims: Seq<Text>,
    other_dims: Seq<Text>,
    measures: Seq<Text>,
    other_measures: Seq<Text>,
    time_dim: Option<Text>,
    granularity: Option<Text>,
)
    requires
        dims.to_multiset() == other_dims.to_multiset(),
        measures.to_multiset() == other_measures.to_multiset(),
    ensures
        rollup_hash(dims, measures, time_dim, granularity) == rollup_hash(
            other_dims,
            other_measures,
            time_dim,
            granularity,
        ),
{
    lemma_sorted_forgets_order(dims, other_dims);
    lemma_sorted_forgets_order(measures, other_measures);
}

/// Every hash is eight lower-case hexadecimal digits, so it can stand in a
/// table's name.
pub proof fn hash_is_eight_hex_digits(
    dims: Seq<Text>,
    measures: Seq<Text>,
    time_dim: Option<Text>,
    granularity: Option<Text>,
)
    ensures
        rollup_hash(dims, measures, time_dim, granularity).len() == 8,
        forall|i: int|
            0 <= i < 8 ==> is_hex_digit(
                #[trigger] rollup_hash(dims, measures, time_dim, granularity)[i],
            ),
{
    let hash = fnv1a(encode_utf8(canonical_form(dims, measures, time_dim, granularity)));
    assert forall|i: int| 0 <= i < 8 implies is_hex_digit(#[trigger] leading_hex(hash)[i]) by {
        let shift = (60 - 4 * i) as u64;
        assert((hash >> shift) & 0xf < 16) by (bit_vector);
        let d = ((hash >> shift) & 0xf) as int;
        assert(leading_hex(hash)[i] == digit(d));
    }
}

} // verus!
