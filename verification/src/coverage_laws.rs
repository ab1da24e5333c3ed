//! What holds between the choice of a rollup and the query on it.

use vstd::prelude::*;

use crate::build_sql::aliased;
use crate::coverage::{
    coarser_or_equal, covered, filter_served, first_covering, granularity_rank, measure_meta,
    measure_served, meta_type, time_served,
};
use crate::dialect::Dialect;
use crate::filter_sql::{condition, conditions};
use crate::manifest::EntryModel;
use crate::query::{
    all_filter_members, filter_members, named_view, FilterModel, FilterOperator, RequestModel,
    TimeDimensionModel,
};
use crate::reagg_sql::{
    flat_name, meta_aggregate, meta_columns, reagg_dimension, reagg_groups, reagg_measure,
    reagg_selects, reagg_time, reaggregate, Tier,
};
use crate::schema::MeasureType;
use crate::sequences::{
    lemma_filter_map_agrees, lemma_filter_map_keeps, lemma_filter_map_total,
};
use crate::text::{distinct, is_qualified, lemma_distinct, member_name, member_view, Text};

verus! {

/// Granularities are ordered: each is as coarse as itself, the relation carries
/// over, two that are as coarse as each other are the same, and of two that have
/// a place in the order one is as coarse as the other.
pub proof fn granularities_are_ordered(a: Text, b: Text, c: Text)
    ensures
        coarser_or_equal(a, a),
        coarser_or_equal(a, b) && coarser_or_equal(b, c) ==> coarser_or_equal(a, c),
        coarser_or_equal(a, b) && coarser_or_equal(b, a) ==> a == b,
        granularity_rank(a) is Some && granularity_rank(b) is Some ==> coarser_or_equal(a, b)
            || coarser_or_equal(b, a),
{
}

/// The rollup that is chosen covers the query, and none before it does.
pub proof fn chosen_rollup_is_first_that_covers(request: RequestModel, rollups: Seq<EntryModel>)
    ensures
        match first_covering(request, rollups) {
            Some(entry) => exists|i: int|
                {
                    &&& 0 <= i < rollups.len()
                    &&& #[trigger] rollups[i] == entry
                    &&& covered(request, entry)
                    &&& forall|j: int| 0 <= j < i ==> !covered(request, #[trigger] rollups[j])
                },
            None => forall|j: int|
                0 <= j < rollups.len() ==> !covered(request, #[trigger] rollups[j]),
        },
    decreases rollups.len(),
{
    if rollups.len() > 0 {
        if covered(request, rollups[0]) {
            assert(rollups[0] == rollups[0]);
        } else {
            let rest = rollups.drop_first();
            chosen_rollup_is_first_that_covers(request, rest);
            match first_covering(request, rollups) {
                Some(entry) => {
                    let i = choose|i: int|
                        {
                            &&& 0 <= i < rest.len()
                            &&& #[trigger] rest[i] == entry
                            &&& covered(request, entry)
                            &&& forall|j: int| 0 <= j < i ==> !covered(request, #[trigger] rest[j])
                        };
                    assert(rollups[i + 1] == entry);
                    assert forall|j: int| 0 <= j < i + 1 implies !covered(
                        request,
                        #[trigger] rollups[j],
                    ) by {
                        if j > 0 {
                            assert(rest[j - 1] == rollups[j]);
                        }
                    }
                },
                None => {
                    assert forall|j: int| 0 <= j < rollups.len() implies !covered(
                        request,
                        #[trigger] rollups[j],
                    ) by {
                        if j > 0 {
                            assert(rest[j - 1] == rollups[j]);
                        }
                    }
                },
            }
        }
    }
}

/// Every member of a covered query that names a view names the rollup's view.
pub proof fn covered_query_is_of_one_view(request: RequestModel, entry: EntryModel, member: Text)
    requires
        covered(request, entry),
        request.members().contains(member),
        is_qualified(member),
    ensures
        member_view(member) == entry.view_name,
{
    let f = |m: Text| named_view(m);
    let named = request.members().filter_map(f);
    let i = choose|i: int| 0 <= i < request.members().len() && request.members()[i] == member;
    lemma_filter_map_keeps(request.members(), f, i);
    lemma_distinct(named);
    assert(request.views() == distinct(named));
    assert(named.contains(member_view(member)));
    assert(distinct(named).contains(member_view(member)));
    let k = choose|k: int|
        0 <= k < request.views().len() && request.views()[k] == member_view(member);
    assert(request.views()[k] == entry.view_name);
}

/// A query that asks for a measure which cannot be aggregated again is not
/// covered.
pub proof fn measures_that_do_not_compose_are_not_covered(
    request: RequestModel,
    entry: EntryModel,
    i: int,
    measure_type: MeasureType,
)
    requires
        0 <= i < request.measures.len(),
        measure_meta(entry.measures, member_name(request.measures[i])) matches Some(meta)
            && meta_type(meta) == Some(measure_type),
        measure_type == MeasureType::Custom || measure_type == MeasureType::Number || measure_type
            == MeasureType::Median,
    ensures
        !covered(request, entry),
{
    if covered(request, entry) {
        assert(measure_served(entry, member_name(request.measures[i])));
    }
}

/// A covered query stays covered when it asks for a coarser granularity.
pub proof fn coarser_queries_stay_covered(
    request: RequestModel,
    entry: EntryModel,
    i: int,
    asked: Text,
    coarser: Text,
)
    requires
        covered(request, entry),
        0 <= i < request.time_dimensions.len(),
        request.time_dimensions[i].granularity == Some(asked),
        coarser_or_equal(coarser, asked),
    ensures
        ({
            let td = TimeDimensionModel {
                granularity: Some(coarser),
                ..request.time_dimensions[i]
            };
            let changed = RequestModel {
                time_dimensions: request.time_dimensions.update(i, td),
                ..request
            };
            covered(changed, entry)
        }),
{
    let td = TimeDimensionModel { granularity: Some(coarser), ..request.time_dimensions[i] };
    let changed = RequestModel {
        time_dimensions: request.time_dimensions.update(i, td),
        ..request
    };
    assert(changed.members() =~= request.members());
    assert(changed.views() == request.views());
    assert(time_served(entry, request.time_dimensions[i]));
    match entry.granularity {
        Some(stored) => granularities_are_ordered(coarser, asked, stored),
        None => {},
    }
    assert forall|j: int| 0 <= j < changed.time_dimensions.len() implies time_served(
        entry,
        #[trigger] changed.time_dimensions[j],
    ) by {
        if j != i {
            assert(time_served(entry, request.time_dimensions[j]));
        }
    }
    assert(covered(changed, entry));
}

/// Whether the rollup holds every granularity that the query asks for in some
/// form: a rollup without one cannot answer a query that wants one.
pub open spec fn granularities_available(request: RequestModel, entry: EntryModel) -> bool {
    entry.granularity is Some || forall|i: int|
        0 <= i < request.time_dimensions.len()
            ==> #[trigger] request.time_dimensions[i].granularity is None
}

/// Whether a select column gives its value under a name.
pub open spec fn selected_as(column: Text, name: Text) -> bool {
    exists|expr: Text| column == #[trigger] aliased(expr, name)
}

/// The members of the result, in the order of its columns.
pub open spec fn result_members(request: RequestModel) -> Seq<Text> {
    request.dimensions + request.time_dimensions.map_values(
        |td: TimeDimensionModel| td.dimension,
    ) + request.measures
}

/// The answer to a covered query has one column for each dimension, time
/// dimension and measure that was asked for, in that order, each under its
/// member's name.
pub proof fn covered_query_gets_every_column(
    request: RequestModel,
    entry: EntryModel,
    dialect: Dialect,
    tier: Tier,
)
    requires
        covered(request, entry),
        granularities_available(request, entry),
    ensures
        reagg_selects(request, entry, dialect, tier).len() == result_members(request).len(),
        forall|i: int|
            0 <= i < result_members(request).len() ==> selected_as(
                #[trigger] reagg_selects(request, entry, dialect, tier)[i],
                dialect.quoted(flat_name(result_members(request)[i])),
            ),
{
    let f = |td: TimeDimensionModel| reagg_time(entry, dialect, td);
    let g = |measure: Text| reagg_measure(entry, dialect, tier, measure);
    let dims = request.dimensions;
    let times = request.time_dimensions;
    let measures = request.measures;
    assert forall|i: int| 0 <= i < times.len() implies f(#[trigger] times[i]) is Some by {
        if entry.granularity is None {
            assert(times[i].granularity is None);
        }
    }
    lemma_filter_map_total(times, f);
    assert forall|i: int| 0 <= i < measures.len() implies g(#[trigger] measures[i]) is Some by {
        assert(measure_served(entry, member_name(measures[i])));
    }
    lemma_filter_map_total(measures, g);
    let groups = reagg_groups(request, entry, dialect);
    let selects = reagg_selects(request, entry, dialect, tier);
    let members = result_members(request);
    assert(groups.len() == dims.len() + times.len());
    assert forall|i: int| 0 <= i < members.len() implies selected_as(
        #[trigger] selects[i],
        dialect.quoted(flat_name(members[i])),
    ) by {
        if i < dims.len() {
            assert(groups[i] == reagg_dimension(dialect, dims[i]));
            assert(selects[i] == aliased(groups[i].expr, dialect.quoted(flat_name(members[i]))));
        } else if i < groups.len() {
            let k = i - dims.len();
            assert(groups[i] == times.filter_map(f)[k]);
            assert(groups[i] == f(times[k])->0);
            assert(members[i] == times[k].dimension);
            assert(selects[i] == aliased(groups[i].expr, dialect.quoted(flat_name(members[i]))));
        } else {
            let k = i - groups.len();
            assert(selects[i] == measures.filter_map(g)[k]);
            assert(selects[i] == g(measures[k])->0);
            assert(members[i] == measures[k]);
            let meta = measure_meta(entry.measures, member_name(measures[k]))->0;
            assert(selects[i] == aliased(
                meta_aggregate(dialect, tier, meta, member_name(measures[k])),
                dialect.quoted(flat_name(members[i])),
            ));
        }
    }
}

/// A covered query asks the local cache and the warehouse for the same columns.
pub proof fn tiers_select_the_same(request: RequestModel, entry: EntryModel, dialect: Dialect)
    requires
        covered(request, entry),
    ensures
        reagg_selects(request, entry, dialect, Tier::Local) == reagg_selects(
            request,
            entry,
            dialect,
            Tier::Warehouse,
        ),
{
    let f = |measure: Text| reagg_measure(entry, dialect, Tier::Local, measure);
    let g = |measure: Text| reagg_measure(entry, dialect, Tier::Warehouse, measure);
    assert forall|i: int| 0 <= i < request.measures.len() implies f(
        #[trigger] request.measures[i],
    ) == g(request.measures[i]) by {
        assert(measure_served(entry, member_name(request.measures[i])));
    }
    lemma_filter_map_agrees(request.measures, f, g);
}

/// A measure of a covered query whose type is known is computed, not `NULL`.
pub proof fn covered_measures_are_computed(
    request: RequestModel,
    entry: EntryModel,
    dialect: Dialect,
    tier: Tier,
    i: int,
)
    requires
        covered(request, entry),
        0 <= i < request.measures.len(),
        measure_meta(entry.measures, member_name(request.measures[i])) matches Some(meta)
            && meta_type(meta) is Some,
    ensures
        ({
            let name = member_name(request.measures[i]);
            let meta = measure_meta(entry.measures, name)->0;
            let computed = reaggregate(
                dialect,
                tier,
                meta_type(meta)->0,
                meta_columns(meta),
                name,
            );
            computed is Some && meta_aggregate(dialect, tier, meta, name) == computed->0
        }),
{
    assert(measure_served(entry, member_name(request.measures[i])));
}

/// Whether a comparison can be put in SQL: all but those with ranges of dates.
pub open spec fn supported_operator(operator: FilterOperator) -> bool {
    match operator {
        FilterOperator::InDateRange
        | FilterOperator::NotInDateRange
        | FilterOperator::BeforeDate
        | FilterOperator::AfterDate => false,
        _ => true,
    }
}

/// Whether a filter has a meaning in SQL: a comparison that can be put so, or a
/// combination of at least one such filter and no others.
pub open spec fn supported(filter: FilterModel) -> bool
    decreases filter, 0int,
{
    match (filter.member, filter.operator) {
        (Some(_), Some(operator)) => supported_operator(operator),
        _ => match (filter.and, filter.or) {
            (Some(parts), _) => parts.len() > 0 && all_supported(parts),
            (None, Some(parts)) => parts.len() > 0 && all_supported(parts),
            (None, None) => false,
        },
    }
}

/// Whether all filters have a meaning in SQL.
pub open spec fn all_supported(filters: Seq<FilterModel>) -> bool
    decreases filters, 1int,
{
    filters.len() == 0 || (all_supported(filters.drop_last()) && supported(filters.last()))
}

/// Whether the rollup has a column for every member.
pub open spec fn all_served(members: Seq<Text>, entry: EntryModel) -> bool {
    forall|i: int| 0 <= i < members.len() ==> filter_served(entry, member_name(#[trigger] members[i]))
}

proof fn lemma_served_parts(a: Seq<Text>, b: Seq<Text>, entry: EntryModel)
    requires
        all_served(a + b, entry),
    ensures
        all_served(a, entry),
        all_served(b, entry),
{
    assert forall|i: int| 0 <= i < a.len() implies filter_served(
        entry,
        member_name(#[trigger] a[i]),
    ) by {
        assert((a + b)[i] == a[i]);
    }
    assert forall|i: int| 0 <= i < b.len() implies filter_served(
        entry,
        member_name(#[trigger] b[i]),
    ) by {
        assert((a + b)[a.len() + i] == b[i]);
    }
}

proof fn lemma_condition_exists(filter: FilterModel, entry: EntryModel, dialect: Dialect)
    requires
        supported(filter),
        all_served(filter_members(filter), entry),
    ensures
        condition(filter, entry, dialect) is Some,
    decreases filter, 0int,
{
    let own = match filter.member {
        Some(member) => seq![member],
        None => seq![],
    };
    let conjuncts = match filter.and {
        Some(parts) => all_filter_members(parts),
        None => seq![],
    };
    let disjuncts = match filter.or {
        Some(parts) => all_filter_members(parts),
        None => seq![],
    };
    lemma_served_parts(own + conjuncts, disjuncts, entry);
    lemma_served_parts(own, conjuncts, entry);
    match (filter.member, filter.operator) {
        (Some(member), Some(operator)) => {
            assert(own[0] == member);
            assert(filter_served(entry, member_name(own[0])));
        },
        _ => match (filter.and, filter.or) {
            (Some(parts), _) => {
                lemma_conditions_complete(parts, entry, dialect);
            },
            (None, Some(parts)) => {
                lemma_conditions_complete(parts, entry, dialect);
            },
            (None, None) => {},
        },
    }
}

proof fn lemma_conditions_complete(filters: Seq<FilterModel>, entry: EntryModel, dialect: Dialect)
    requires
        all_supported(filters),
        all_served(all_filter_members(filters), entry),
    ensures
        conditions(filters, entry, dialect).len() == filters.len(),
    decreases filters, 1int,
{
    if filters.len() > 0 {
        lemma_served_parts(
            all_filter_members(filters.drop_last()),
            filter_members(filters.last()),
            entry,
        );
        lemma_conditions_complete(filters.drop_last(), entry, dialect);
        lemma_condition_exists(filters.last(), entry, dialect);
    }
}

/// No filter of a covered query is lost: each that has a meaning in SQL gives a
/// condition.
pub proof fn covered_query_keeps_its_filters(
    request: RequestModel,
    entry: EntryModel,
    dialect: Dialect,
)
    requires
        covered(request, entry),
        all_supported(request.filters),
    ensures
        conditions(request.filters, entry, dialect).len() == request.filters.len(),
{
    assert(all_served(all_filter_members(request.filters), entry));
    lemma_conditions_complete(request.filters, entry, dialect);
}

} // verus!
