//! Which rollup can answer a query.

use vstd::prelude::*;

use crate::json::{Json, JsonModel};
use crate::manifest::{EntryModel, LocalRollupEntry};
use crate::query::{
    all_filter_members, collect_members_of, QueryRequest, RequestModel, TimeDimensionModel,
    TimeDimensionQuery,
};
use crate::schema::MeasureType;
use crate::text::{contains_text, member_name, name_of_member, same_text, Text};

verus! {

/// The place of a granularity in the order from fine to coarse.
pub open spec fn granularity_rank(granularity: Text) -> Option<int> {
    if granularity == "second"@ {
        Some(0)
    } else if granularity == "minute"@ {
        Some(1)
    } else if granularity == "hour"@ {
        Some(2)
    } else if granularity == "day"@ {
        Some(3)
    } else if granularity == "week"@ {
        Some(4)
    } else if granularity == "month"@ {
        Some(5)
    } else if granularity == "quarter"@ {
        Some(6)
    } else if granularity == "year"@ {
        Some(7)
    } else {
        None
    }
}

/// Whether values stored at one granularity can be cut down to another. One
/// that has no place in the order is only good for itself.
pub open spec fn coarser_or_equal(requested: Text, stored: Text) -> bool {
    match (granularity_rank(requested), granularity_rank(stored)) {
        (Some(r), Some(s)) => r >= s,
        _ => requested == stored,
    }
}

/// Whether the rollup has a column for a filter on `name`.
pub open spec fn filter_served(entry: EntryModel, name: Text) -> bool {
    entry.dimensions.contains(name) || entry.time_dimension == Some(name)
}

/// What the manifest says of the measure `name`: its first object of that name.
pub open spec fn measure_meta(measures: Seq<JsonModel>, name: Text) -> Option<JsonModel>
    decreases measures.len(),
{
    if measures.len() == 0 {
        None
    } else if measures[0].field_text("name"@) == Some(name) {
        Some(measures[0])
    } else {
        measure_meta(measures.drop_first(), name)
    }
}

/// The type of a measure in the manifest, where it is one that is known.
pub open spec fn meta_type(meta: JsonModel) -> Option<MeasureType> {
    match meta.field_text("type"@) {
        Some(name) => MeasureType::named(name),
        None => None,
    }
}

/// Whether a type stands in the way of aggregating again. One that is not known
/// does not.
pub open spec fn rejected_type(measure_type: Option<MeasureType>) -> bool {
    match measure_type {
        Some(t) => !t.composable(),
        None => false,
    }
}

/// Whether the rollup holds the measure `name` in a form that can be aggregated
/// again.
pub open spec fn measure_served(entry: EntryModel, name: Text) -> bool {
    match measure_meta(entry.measures, name) {
        Some(meta) => !rejected_type(meta_type(meta)),
        None => false,
    }
}

/// Whether the rollup holds a time dimension finely enough.
pub open spec fn time_served(entry: EntryModel, td: TimeDimensionModel) -> bool {
    entry.time_dimension == Some(member_name(td.dimension)) && match (
        td.granularity,
        entry.granularity,
    ) {
        (Some(requested), Some(stored)) => coarser_or_equal(requested, stored),
        _ => true,
    }
}

/// Whether a rollup can answer a query: it is of the one view that the query
/// names, and has what every filter, dimension, measure and time dimension needs.
pub open spec fn covered(request: RequestModel, entry: EntryModel) -> bool {
    let filtered = all_filter_members(request.filters);
    &&& forall|i: int|
        0 <= i < filtered.len() ==> filter_served(entry, member_name(#[trigger] filtered[i]))
    &&& forall|i: int|
        0 <= i < request.views().len() ==> #[trigger] request.views()[i] == entry.view_name
    &&& forall|i: int|
        0 <= i < request.dimensions.len() ==> entry.dimensions.contains(
            member_name(#[trigger] request.dimensions[i]),
        )
    &&& forall|i: int|
        0 <= i < request.measures.len() ==> measure_served(
            entry,
            member_name(#[trigger] request.measures[i]),
        )
    &&& forall|i: int|
        0 <= i < request.time_dimensions.len() ==> time_served(
            entry,
            #[trigger] request.time_dimensions[i],
        )
}

/// The first rollup that can answer a query.
pub open spec fn first_covering(request: RequestModel, rollups: Seq<EntryModel>) -> Option<
    EntryModel,
>
    decreases rollups.len(),
{
    if rollups.len() == 0 {
        None
    } else if covered(request, rollups[0]) {
        Some(rollups[0])
    } else {
        first_covering(request, rollups.drop_first())
    }
}

fn rank_of(granularity: &str) -> (rank: Option<u8>)
    ensures
        granularity_rank(granularity@) == match rank {
            Some(r) => Some(r as int),
            None => None,
        },
{
    if same_text(granularity, "second") {
        Some(0)
    } else if same_text(granularity, "minute") {
        Some(1)
    } else if same_text(granularity, "hour") {
        Some(2)
    } else if same_text(granularity, "day") {
        Some(3)
    } else if same_text(granularity, "week") {
        Some(4)
    } else if same_text(granularity, "month") {
        Some(5)
    } else if same_text(granularity, "quarter") {
        Some(6)
    } else if same_text(granularity, "year") {
        Some(7)
    } else {
        None
    }
}

/// Tells whether a requested granularity is the stored one or a coarser one.
pub fn is_coarser_or_equal(requested: &str, stored: &str) -> (r: bool)
    ensures
        r == coarser_or_equal(requested@, stored@),
{
    match (rank_of(requested), rank_of(stored)) {
        (Some(r), Some(s)) => r >= s,
        _ => same_text(requested, stored),
    }
}

/// Whether an optional string is `wanted`.
pub fn option_is(s: &Option<String>, wanted: &str) -> (r: bool)
    ensures
        r == (s.deep_view() == Some(wanted@)),
{
    match s {
        Some(text) => same_text(text.as_str(), wanted),
        None => false,
    }
}

/// Finds what the manifest says of a measure.
pub fn find_measure_meta<'a>(measures: &'a Vec<Json>, name: &str) -> (r: Option<&'a Json>)
    ensures
        r.deep_view() == measure_meta(measures.deep_view(), name@),
{
    let ghost all = measures.deep_view();
    let mut i: usize = 0;
    assert(all.skip(0) =~= all);
    while i < measures.len()
        invariant
            i <= measures@.len(),
            all == measures.deep_view(),
            measure_meta(all, name@) == measure_meta(all.skip(i as int), name@),
        decreases measures@.len() - i,
    {
        assert(all.skip(i as int)[0] == measures@[i as int].deep_view());
        if let Some(found) = measures[i].get_str("name") {
            if same_text(found, name) {
                return Some(&measures[i]);
            }
        }
        assert(all.skip(i as int).drop_first() =~= all.skip(i + 1));
        i += 1;
    }
    None
}

/// Reads the type of a measure from the manifest.
pub fn meta_type_of(meta: &Json) -> (r: Option<MeasureType>)
    ensures
        r == meta_type(meta.deep_view()),
{
    match meta.get_str("type") {
        Some(name) => MeasureType::from_name(name),
        None => None,
    }
}

fn serves_filter(entry: &LocalRollupEntry, name: &str) -> (r: bool)
    ensures
        r == filter_served(entry.deep_view(), name@),
{
    contains_text(&entry.dimensions, name) || option_is(&entry.time_dimension, name)
}

fn serves_measure(entry: &LocalRollupEntry, name: &str) -> (r: bool)
    ensures
        r == measure_served(entry.deep_view(), name@),
{
    match find_measure_meta(&entry.measures, name) {
        Some(meta) => match meta_type_of(meta) {
            Some(t) => t.is_composable(),
            None => true,
        },
        None => false,
    }
}

fn serves_time(entry: &LocalRollupEntry, td: &TimeDimensionQuery) -> (r: bool)
    ensures
        r == time_served(entry.deep_view(), td.deep_view()),
{
    if !option_is(&entry.time_dimension, name_of_member(td.dimension.as_str()).as_str()) {
        return false;
    }
    match (&td.granularity, &entry.granularity) {
        (Some(requested), Some(stored)) => is_coarser_or_equal(
            requested.as_str(),
            stored.as_str(),
        ),
        _ => true,
    }
}

/// Tells whether a rollup can answer a query.
pub fn covers(request: &QueryRequest, entry: &LocalRollupEntry) -> (r: bool)
    ensures
        r == covered(request.deep_view(), entry.deep_view()),
{
    let ghost q = request.deep_view();
    let ghost e = entry.deep_view();

    let mut filtered: Vec<String> = Vec::new();
    assert(filtered.deep_view() =~= Seq::<Text>::empty());
    collect_members_of(&request.filters, &mut filtered);
    assert(filtered.deep_view() =~= all_filter_members(q.filters));
    let mut i: usize = 0;
    while i < filtered.len()
        invariant
            i <= filtered@.len(),
            q == request.deep_view(),
            e == entry.deep_view(),
            filtered.deep_view() == all_filter_members(q.filters),
            forall|j: int|
                0 <= j < i ==> filter_served(
                    e,
                    member_name(#[trigger] all_filter_members(q.filters)[j]),
                ),
        decreases filtered@.len() - i,
    {
        assert(all_filter_members(q.filters)[i as int] == filtered@[i as int]@);
        if !serves_filter(entry, name_of_member(filtered[i].as_str()).as_str()) {
            return false;
        }
        i += 1;
    }

    let views = request.referenced_views();
    let mut i: usize = 0;
    while i < views.len()
        invariant
            i <= views@.len(),
            q == request.deep_view(),
            e == entry.deep_view(),
            views.deep_view() == q.views(),
            forall|j: int| 0 <= j < i ==> #[trigger] q.views()[j] == e.view_name,
        decreases views@.len() - i,
    {
        assert(q.views()[i as int] == views@[i as int]@);
        if !same_text(views[i].as_str(), entry.view_name.as_str()) {
            return false;
        }
        i += 1;
    }

    let mut i: usize = 0;
    while i < request.dimensions.len()
        invariant
            i <= request.dimensions@.len(),
            q == request.deep_view(),
            e == entry.deep_view(),
            forall|j: int|
                0 <= j < i ==> e.dimensions.contains(member_name(#[trigger] q.dimensions[j])),
        decreases request.dimensions@.len() - i,
    {
        assert(q.dimensions[i as int] == request.dimensions@[i as int]@);
        let name = name_of_member(request.dimensions[i].as_str());
        if !contains_text(&entry.dimensions, name.as_str()) {
            return false;
        }
        i += 1;
    }

    let mut i: usize = 0;
    while i < request.measures.len()
        invariant
            i <= request.measures@.len(),
            q == request.deep_view(),
            e == entry.deep_view(),
            forall|j: int|
                0 <= j < i ==> measure_served(e, member_name(#[trigger] q.measures[j])),
        decreases request.measures@.len() - i,
    {
        assert(q.measures[i as int] == request.measures@[i as int]@);
        if !serves_measure(entry, name_of_member(request.measures[i].as_str()).as_str()) {
            return false;
        }
        i += 1;
    }

    let mut i: usize = 0;
    while i < request.time_dimensions.len()
        invariant
            i <= request.time_dimensions@.len(),
            q == request.deep_view(),
            e == entry.deep_view(),
            forall|j: int| 0 <= j < i ==> time_served(e, #[trigger] q.time_dimensions[j]),
        decreases request.time_dimensions@.len() - i,
    {
        assert(q.time_dimensions[i as int] == request.time_dimensions@[i as int].deep_view());
        if !serves_time(entry, &request.time_dimensions[i]) {
            return false;
        }
        i += 1;
    }
    true
}

/// Finds the first rollup that can answer a query.
pub fn check_coverage<'a>(request: &QueryRequest, rollups: &'a [LocalRollupEntry]) -> (r: Option<
    &'a LocalRollupEntry,
>)
    ensures
        r.deep_view() == first_covering(request.deep_view(), rollups.deep_view()),
        r matches Some(entry) ==> rollups@.contains(*entry),
{
    let ghost all = rollups.deep_view();
    let ghost q = request.deep_view();
    let mut i: usize = 0;
    assert(all.skip(0) =~= all);
    while i < rollups.len()
        invariant
            i <= rollups@.len(),
            all == rollups.deep_view(),
            q == request.deep_view(),
            first_covering(q, all) == first_covering(q, all.skip(i as int)),
        decreases rollups@.len() - i,
    {
        assert(all.skip(i as int)[0] == rollups@[i as int].deep_view());
        if covers(request, &rollups[i]) {
            return Some(&rollups[i]);
        }
        assert(all.skip(i as int).drop_first() =~= all.skip(i + 1));
        i += 1;
    }
    None
}

} // verus!
