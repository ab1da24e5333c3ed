//! Which queries a rollup covers, and what the text of its answer says.

use vstd::prelude::*;

use crate::build_sql::ordinals;
use crate::coverage::{
    coarser_or_equal, covered, filter_served, measure_meta, measure_served, meta_type, time_served,
};
use crate::coverage_laws::{all_supported, covered_query_keeps_its_filters};
use crate::dialect::Dialect;
use crate::filter_sql::{
    anywhere, comparison, condition, conditions, escaped, filter_column, literal, literals,
};
use crate::json::{field_named, JsonModel};
use crate::manifest::EntryModel;
use crate::query::{
    all_filter_members, filter_members, named_view, FilterModel, FilterOperator, RequestModel,
    TimeDimensionModel,
};
use crate::reagg_sql::{
    flat_name, group_exprs, meta_aggregate, parquet_source, reagg_groups, reagg_measure,
    reagg_query, reagg_selects, reagg_time, Tier,
};
use crate::schema::MeasureType;
use crate::schema_laws::types_have_their_names;
use crate::sequences::{
    lemma_filter_map_indices, lemma_filter_map_keeps, lemma_filter_map_source,
};
use crate::storage_laws::lemma_one_view;
use crate::text::{
    decimal, distinct, is_qualified, joined, lemma_distinct, lemma_replaced_concat, member_name,
    member_view, replaced, Text,
};
use crate::text_laws::replacement_is_by_character;

verus! {

/// The granularities from fine to coarse.
pub open spec fn granularities() -> Seq<Text> {
    seq![
        "second"@,
        "minute"@,
        "hour"@,
        "day"@,
        "week"@,
        "month"@,
        "quarter"@,
        "year"@,
    ]
}

/// Of two granularities the later in the list from seconds to years is the
/// coarser, and never the earlier. One that is not in the list compares with
/// itself alone.
pub proof fn granularities_run_from_second_to_year(i: int, j: int, a: Text, b: Text)
    requires
        0 <= i < 8,
        0 <= j < 8,
    ensures
        coarser_or_equal(granularities()[i], granularities()[j]) <==> i >= j,
        !granularities().contains(a) || !granularities().contains(b) ==> (coarser_or_equal(a, b)
            <==> a == b),
{
    reveal_strlit("second");
    reveal_strlit("minute");
    reveal_strlit("hour");
    reveal_strlit("day");
    reveal_strlit("week");
    reveal_strlit("month");
    reveal_strlit("quarter");
    reveal_strlit("year");
    let g = granularities();
    assert("second"@.len() == 6 && "minute"@.len() == 6 && "hour"@.len() == 4 && "day"@.len() == 3
        && "week"@.len() == 4 && "month"@.len() == 5 && "quarter"@.len() == 7 && "year"@.len()
        == 4);
    assert("second"@[0] != "minute"@[0]);
    assert("hour"@[0] != "week"@[0]);
    assert("hour"@[0] != "year"@[0]);
    assert("week"@[0] != "year"@[0]);
    assert(g[0] == "second"@ && g[1] == "minute"@ && g[2] == "hour"@ && g[3] == "day"@ && g[4]
        == "week"@ && g[5] == "month"@ && g[6] == "quarter"@ && g[7] == "year"@);
    assert(g.contains(g[0]) && g.contains(g[1]) && g.contains(g[2]) && g.contains(g[3])
        && g.contains(g[4]) && g.contains(g[5]) && g.contains(g[6]) && g.contains(g[7]));
}

/// Whether `i` is the place of the first field of that key.
pub open spec fn first_field(fields: Seq<(Text, JsonModel)>, key: Text, i: int) -> bool {
    &&& 0 <= i < fields.len()
    &&& fields[i].0 == key
    &&& forall|j: int| 0 <= j < i ==> (#[trigger] fields[j]).0 != key
}

proof fn lemma_field_named(fields: Seq<(Text, JsonModel)>, key: Text) -> (i: int)
    ensures
        match field_named(fields, key) {
            Some(value) => first_field(fields, key, i) && value == fields[i].1,
            None => forall|j: int| 0 <= j < fields.len() ==> (#[trigger] fields[j]).0 != key,
        },
    decreases fields.len(),
{
    if fields.len() == 0 || fields[0].0 == key {
        0
    } else {
        let rest = fields.drop_first();
        let k = lemma_field_named(rest, key);
        assert forall|j: int|
            0 <= j < fields.len() && (field_named(rest, key) is None || j < k + 1) implies (
        #[trigger] fields[j]).0 != key by {
            if j > 0 {
                assert(rest[j - 1] == fields[j]);
            }
        }
        k + 1
    }
}

/// A field is found by its key in an object, the first where there are several,
/// and in nothing else.
pub proof fn fields_are_found_by_key(value: JsonModel, key: Text) -> (i: int)
    ensures
        match value.field(key) {
            Some(found) => value is Object && first_field(value->Object_0, key, i) && found
                == value->Object_0[i].1,
            None => value is Object ==> forall|j: int|
                0 <= j < value->Object_0.len() ==> (#[trigger] value->Object_0[j]).0 != key,
        },
        value.field_text(key) is Some <==> value.field(key) is Some && value.field(key)->0 is Str,
        value.field_text(key) is Some ==> value.field(key) == Some(
            JsonModel::Str(value.field_text(key)->0),
        ),
{
    if value is Object {
        lemma_field_named(value->Object_0, key)
    } else {
        0
    }
}

/// The texts of a field are the strings of its array, in their order; what is no
/// array has none.
pub proof fn texts_are_the_strings_of_an_array(value: JsonModel, key: Text) -> (at: Seq<int>)
    ensures
        !(value.field(key) is Some && value.field(key)->0 is Array) ==> value.field_texts(
            key,
        ).len() == 0,
        value.field(key) is Some && value.field(key)->0 is Array ==> {
            let items = value.field(key)->0->Array_0;
            &&& value.field_texts(key).len() == at.len()
            &&& forall|k: int, l: int| 0 <= k < l < at.len() ==> #[trigger] at[k] < #[trigger] at[l]
            &&& forall|k: int|
                0 <= k < at.len() ==> 0 <= #[trigger] at[k] < items.len() && items[at[k]]
                    == JsonModel::Str(value.field_texts(key)[k])
            &&& forall|i: int|
                0 <= i < items.len() && #[trigger] items[i] is Str ==> at.contains(i)
        },
{
    let f = |item: JsonModel| item.text();
    if value.field(key) is Some && value.field(key)->0 is Array {
        let items = value.field(key)->0->Array_0;
        let at = lemma_filter_map_indices(items, f);
        assert forall|k: int| 0 <= k < at.len() implies 0 <= #[trigger] at[k] < items.len()
            && items[at[k]] == JsonModel::Str(value.field_texts(key)[k]) by {
            assert(f(items[at[k]]) == Some(value.field_texts(key)[k]));
        }
        assert forall|i: int|
            0 <= i < items.len() && #[trigger] items[i] is Str implies at.contains(i) by {
            assert(f(items[i]) is Some);
        }
        at
    } else {
        Seq::empty()
    }
}

/// Whether `i` is the place of the first object with that name.
pub open spec fn first_recorded(measures: Seq<JsonModel>, name: Text, i: int) -> bool {
    &&& 0 <= i < measures.len()
    &&& measures[i].field_text("name"@) == Some(name)
    &&& forall|j: int|
        0 <= j < i ==> (#[trigger] measures[j]).field_text("name"@) != Some(name)
}

/// Looking up a recorded measure gives the first object with its name, and
/// nothing only where there is none.
pub proof fn recorded_measures_are_looked_up(measures: Seq<JsonModel>, name: Text) -> (i: int)
    ensures
        match measure_meta(measures, name) {
            Some(meta) => first_recorded(measures, name, i) && meta == measures[i],
            None => forall|j: int|
                0 <= j < measures.len() ==> (#[trigger] measures[j]).field_text("name"@) != Some(
                    name,
                ),
        },
    decreases measures.len(),
{
    if measures.len() == 0 || measures[0].field_text("name"@) == Some(name) {
        0
    } else {
        let rest = measures.drop_first();
        let k = recorded_measures_are_looked_up(rest, name);
        assert forall|j: int|
            0 <= j < measures.len() && (measure_meta(rest, name) is None || j < k + 1) implies (
        #[trigger] measures[j]).field_text("name"@) != Some(name) by {
            if j > 0 {
                assert(rest[j - 1] == measures[j]);
            }
        }
        k + 1
    }
}

/// The members of a filter are its own and those of its parts; the members of
/// several filters are those of each, in order.
pub proof fn filters_mention_their_members(
    f: FilterModel,
    a: Seq<FilterModel>,
    b: Seq<FilterModel>,
    x: Text,
)
    ensures
        filter_members(f).contains(x) <==> {
            ||| f.member == Some(x)
            ||| f.and is Some && all_filter_members(f.and->0).contains(x)
            ||| f.or is Some && all_filter_members(f.or->0).contains(x)
        },
        f.member == Some(x) ==> filter_members(f)[0] == x,
        filter_members(f).len() == (if f.member is Some {
            1int
        } else {
            0
        }) + (if f.and is Some {
            all_filter_members(f.and->0).len() as int
        } else {
            0
        }) + (if f.or is Some {
            all_filter_members(f.or->0).len() as int
        } else {
            0
        }),
        all_filter_members(Seq::empty()).len() == 0,
        all_filter_members(seq![f]) == filter_members(f),
        all_filter_members(a + b) == all_filter_members(a) + all_filter_members(b),
    decreases b.len(),
{
    let own = match f.member {
        Some(member) => seq![member],
        None => seq![],
    };
    let conjuncts = match f.and {
        Some(parts) => all_filter_members(parts),
        None => seq![],
    };
    let disjuncts = match f.or {
        Some(parts) => all_filter_members(parts),
        None => seq![],
    };
    assert(filter_members(f) == own + conjuncts + disjuncts);
    lemma_contains_concat(own + conjuncts, disjuncts, x);
    lemma_contains_concat(own, conjuncts, x);
    if f.member == Some(x) {
        assert(own[0] == x);
        assert(own.contains(x));
    }
    let none = Seq::<FilterModel>::empty();
    assert(seq![f].drop_last() =~= none);
    assert(all_filter_members(none) =~= Seq::<Text>::empty());
    assert(seq![f].last() == f);
    assert(all_filter_members(seq![f]) =~= filter_members(f));
    if b.len() == 0 {
        assert(a + b =~= a);
        assert(all_filter_members(a) + all_filter_members(b) =~= all_filter_members(a));
    } else {
        filters_mention_their_members(f, a, b.drop_last(), x);
        assert((a + b).drop_last() =~= a + b.drop_last());
        assert((a + b).last() == b.last());
        assert(all_filter_members(a + b) =~= all_filter_members(a) + all_filter_members(b));
    }
}

proof fn lemma_contains_concat(a: Seq<Text>, b: Seq<Text>, x: Text)
    ensures
        (a + b).contains(x) <==> a.contains(x) || b.contains(x),
{
    if a.contains(x) {
        let i = choose|i: int| 0 <= i < a.len() && a[i] == x;
        assert((a + b)[i] == x);
    }
    if b.contains(x) {
        let i = choose|i: int| 0 <= i < b.len() && b[i] == x;
        assert((a + b)[a.len() + i] == x);
    }
    if (a + b).contains(x) {
        let i = choose|i: int| 0 <= i < (a + b).len() && (a + b)[i] == x;
        if i < a.len() {
            assert(a[i] == x);
        } else {
            assert(b[i - a.len()] == x);
        }
    }
}

/// A query mentions its dimensions, measures, time dimensions and the members of
/// its filters, and nothing else; its views are those that these name, each once.
pub proof fn queries_mention_all_their_members(request: RequestModel, x: Text, view: Text)
    ensures
        request.members().contains(x) <==> {
            ||| request.dimensions.contains(x)
            ||| request.measures.contains(x)
            ||| exists|i: int|
                0 <= i < request.time_dimensions.len() && (
                #[trigger] request.time_dimensions[i]).dimension == x
            ||| all_filter_members(request.filters).contains(x)
        },
        request.views().no_duplicates(),
        request.views().contains(view) <==> exists|i: int|
            0 <= i < request.members().len() && is_qualified(#[trigger] request.members()[i])
                && member_view(request.members()[i]) == view,
{
    let times = request.time_dimensions.map_values(|td: TimeDimensionModel| td.dimension);
    let filtered = all_filter_members(request.filters);
    lemma_contains_concat(request.dimensions + request.measures + times, filtered, x);
    lemma_contains_concat(request.dimensions + request.measures, times, x);
    lemma_contains_concat(request.dimensions, request.measures, x);
    if times.contains(x) {
        let i = choose|i: int| 0 <= i < times.len() && times[i] == x;
        assert(request.time_dimensions[i].dimension == x);
    }
    if exists|i: int|
        0 <= i < request.time_dimensions.len() && (#[trigger] request.time_dimensions[i]).dimension
            == x {
        let i = choose|i: int|
            0 <= i < request.time_dimensions.len() && (
            #[trigger] request.time_dimensions[i]).dimension == x;
        assert(times[i] == x);
    }
    let members = request.members();
    let f = |m: Text| named_view(m);
    let named = members.filter_map(f);
    lemma_distinct(named);
    assert(request.views() == distinct(named));
    if named.contains(view) {
        let i = lemma_filter_map_source(members, f, view);
        assert(is_qualified(members[i]) && member_view(members[i]) == view);
    }
    if exists|i: int|
        0 <= i < members.len() && is_qualified(#[trigger] members[i]) && member_view(members[i])
            == view {
        let i = choose|i: int|
            0 <= i < members.len() && is_qualified(#[trigger] members[i]) && member_view(
                members[i],
            ) == view;
        lemma_filter_map_keeps(members, f, i);
    }
}

/// Whether an entry records a measure of that name, first of its name, whose type
/// is not one that cannot be aggregated again.
pub open spec fn holds_measure(entry: EntryModel, name: Text) -> bool {
    exists|i: int|
        {
            &&& #[trigger] first_recorded(entry.measures, name, i)
            &&& entry.measures[i].field_text("type"@) != Some("custom"@)
            &&& entry.measures[i].field_text("type"@) != Some("number"@)
            &&& entry.measures[i].field_text("type"@) != Some("median"@)
        }
}

/// Whether an entry has a column to filter on that name.
pub open spec fn holds_filter(entry: EntryModel, name: Text) -> bool {
    entry.dimensions.contains(name) || entry.time_dimension == Some(name)
}

/// Whether an entry holds a time dimension, at the wanted granularity or a finer
/// one where both are known.
pub open spec fn holds_time(entry: EntryModel, td: TimeDimensionModel) -> bool {
    &&& entry.time_dimension == Some(member_name(td.dimension))
    &&& td.granularity is Some && entry.granularity is Some ==> coarser_or_equal(
        td.granularity->0,
        entry.granularity->0,
    )
}

proof fn lemma_holds_measure(entry: EntryModel, name: Text)
    ensures
        measure_served(entry, name) <==> holds_measure(entry, name),
{
    let i = recorded_measures_are_looked_up(entry.measures, name);
    if holds_measure(entry, name) {
        let k = choose|k: int|
            {
                &&& #[trigger] first_recorded(entry.measures, name, k)
                &&& entry.measures[k].field_text("type"@) != Some("custom"@)
                &&& entry.measures[k].field_text("type"@) != Some("number"@)
                &&& entry.measures[k].field_text("type"@) != Some("median"@)
            };
        assert(measure_meta(entry.measures, name) is Some);
        assert(i == k) by {
            if i < k {
                assert(entry.measures[i].field_text("name"@) != Some(name));
            }
            if k < i {
                assert(entry.measures[k].field_text("name"@) != Some(name));
            }
        }
    }
    if measure_meta(entry.measures, name) is Some {
        let meta = entry.measures[i];
        assert(first_recorded(entry.measures, name, i));
        match meta.field_text("type"@) {
            Some(t) => {
                types_have_their_names(MeasureType::Custom, t);
                types_have_their_names(MeasureType::Number, t);
                types_have_their_names(MeasureType::Median, t);
            },
            None => {},
        }
    }
}

/// A rollup covers a query exactly where all its qualified members are of the
/// rollup's view and the rollup holds what each filter, dimension, measure and
/// time dimension needs.
pub proof fn rollups_cover_what_they_hold(request: RequestModel, entry: EntryModel)
    ensures
        covered(request, entry) <==> {
            &&& forall|i: int|
                0 <= i < all_filter_members(request.filters).len() ==> holds_filter(
                    entry,
                    member_name(#[trigger] all_filter_members(request.filters)[i]),
                )
            &&& forall|i: int|
                0 <= i < request.members().len() && is_qualified(#[trigger] request.members()[i])
                    ==> member_view(request.members()[i]) == entry.view_name
            &&& forall|i: int|
                0 <= i < request.dimensions.len() ==> entry.dimensions.contains(
                    member_name(#[trigger] request.dimensions[i]),
                )
            &&& forall|i: int|
                0 <= i < request.measures.len() ==> holds_measure(
                    entry,
                    member_name(#[trigger] request.measures[i]),
                )
            &&& forall|i: int|
                0 <= i < request.time_dimensions.len() ==> holds_time(
                    entry,
                    #[trigger] request.time_dimensions[i],
                )
        },
{
    lemma_one_view(request, entry.view_name);
    let filtered = all_filter_members(request.filters);
    assert forall|name: Text| #[trigger]
        measure_served(entry, name) == holds_measure(entry, name) by {
        lemma_holds_measure(entry, name);
    }
    assert forall|td: TimeDimensionModel| #[trigger]
        time_served(entry, td) == holds_time(entry, td) by {}
    assert forall|name: Text| #[trigger]
        filter_served(entry, name) == holds_filter(entry, name) by {}
    assert forall|i: int| 0 <= i < request.measures.len() implies measure_served(
        entry,
        member_name(#[trigger] request.measures[i]),
    ) == holds_measure(entry, member_name(request.measures[i])) by {}
    assert forall|i: int| 0 <= i < filtered.len() implies filter_served(
        entry,
        member_name(#[trigger] filtered[i]),
    ) == holds_filter(entry, member_name(filtered[i])) by {}
    assert forall|i: int| 0 <= i < request.time_dimensions.len() implies time_served(
        entry,
        #[trigger] request.time_dimensions[i],
    ) == holds_time(entry, request.time_dimensions[i]) by {}
}

/// A filter on a dimension reads the dimension's column; one on the time
/// dimension reads the column of the stored granularity, where there is one; and
/// no other member has a column.
pub proof fn filters_read_their_columns(entry: EntryModel, dialect: Dialect, name: Text, held: Text)
    ensures
        entry.dimensions.contains(name) ==> filter_column(entry, dialect, name) == Some(
            dialect.quoted(name),
        ),
        !entry.dimensions.contains(name) && entry.time_dimension == Some(name) && entry.granularity
            == Some(held) ==> filter_column(entry, dialect, name) == Some(
            dialect.quoted(name + "__"@ + held),
        ),
        !entry.dimensions.contains(name) && entry.time_dimension == Some(name)
            && entry.granularity is None ==> filter_column(entry, dialect, name) == Some(
            dialect.quoted(name),
        ),
        !entry.dimensions.contains(name) && entry.time_dimension != Some(name) ==> filter_column(
            entry,
            dialect,
            name,
        ) is None,
{
}

/// Each comparison has its sign, and its values as SQL strings. Equality with
/// several values or none is membership in a list; a pattern holds its value
/// between two percent signs; ranges of dates have no comparison.
pub proof fn comparisons_have_their_sign(column: Text, values: Seq<Text>, value: Text)
    ensures
        values == seq![value] ==> {
            &&& comparison(FilterOperator::Equals, column, values) == Some(
                column + " = "@ + literal(value),
            )
            &&& comparison(FilterOperator::NotEquals, column, values) == Some(
                column + " <> "@ + literal(value),
            )
        },
        values.len() != 1 ==> {
            let list = joined(Seq::new(values.len(), |i: int| literal(values[i])), ", "@);
            &&& comparison(FilterOperator::Equals, column, values) == Some(
                column + " IN ("@ + list + ")"@,
            )
            &&& comparison(FilterOperator::NotEquals, column, values) == Some(
                column + " NOT IN ("@ + list + ")"@,
            )
        },
        values.len() > 0 && values[0] == value ==> {
            let pattern = literal(seq!['%'] + value + seq!['%']);
            &&& comparison(FilterOperator::Gt, column, values) == Some(
                column + " > "@ + literal(value),
            )
            &&& comparison(FilterOperator::Gte, column, values) == Some(
                column + " >= "@ + literal(value),
            )
            &&& comparison(FilterOperator::Lt, column, values) == Some(
                column + " < "@ + literal(value),
            )
            &&& comparison(FilterOperator::Lte, column, values) == Some(
                column + " <= "@ + literal(value),
            )
            &&& comparison(FilterOperator::Contains, column, values) == Some(
                column + " LIKE "@ + pattern,
            )
            &&& comparison(FilterOperator::NotContains, column, values) == Some(
                column + " NOT LIKE "@ + pattern,
            )
        },
        values.len() == 0 ==> {
            let pattern = literal(seq!['%', '%']);
            &&& comparison(FilterOperator::Gt, column, values) == Some(column + " > "@ + "NULL"@)
            &&& comparison(FilterOperator::Gte, column, values) == Some(column + " >= "@ + "NULL"@)
            &&& comparison(FilterOperator::Lt, column, values) == Some(column + " < "@ + "NULL"@)
            &&& comparison(FilterOperator::Lte, column, values) == Some(column + " <= "@ + "NULL"@)
            &&& comparison(FilterOperator::Contains, column, values) == Some(
                column + " LIKE "@ + pattern,
            )
            &&& comparison(FilterOperator::NotContains, column, values) == Some(
                column + " NOT LIKE "@ + pattern,
            )
        },
        comparison(FilterOperator::IsSet, column, values) == Some(column + " IS NOT NULL"@),
        comparison(FilterOperator::NotSet, column, values) == Some(column + " IS NULL"@),
        comparison(FilterOperator::InDateRange, column, values) is None,
        comparison(FilterOperator::NotInDateRange, column, values) is None,
        comparison(FilterOperator::BeforeDate, column, values) is None,
        comparison(FilterOperator::AfterDate, column, values) is None,
{
    assert(literals(values) =~= Seq::new(values.len(), |i: int| literal(values[i])));
    if values.len() > 0 {
        lemma_pattern(values, values[0]);
    } else {
        lemma_pattern(values, Seq::empty());
        assert(seq!['%'] + Seq::<char>::empty() + seq!['%'] =~= seq!['%', '%']);
    }
}

proof fn lemma_pattern(values: Seq<Text>, value: Text)
    requires
        values.len() > 0 ==> value == values[0],
        values.len() == 0 ==> value.len() == 0,
    ensures
        anywhere(values) == literal(seq!['%'] + value + seq!['%']),
{
    reveal_strlit("'");
    reveal_strlit("'%");
    reveal_strlit("%'");
    let two = "''"@;
    let sign = seq!['%'];
    lemma_replaced_concat(sign + value, sign, '\'', two);
    lemma_replaced_concat(sign, value, '\'', two);
    replacement_is_by_character(sign, sign, '%', '\'', two);
    assert(escaped(sign + value + sign) == sign + escaped(value) + sign);
    if values.len() == 0 {
        assert(value =~= Seq::<char>::empty());
        assert(escaped(value) =~= Seq::<char>::empty());
    }
    assert(anywhere(values) =~= literal(sign + value + sign));
}

/// A filter with a member and an operator is that comparison of the member's
/// column; else it is all of its parts, or any of them, between brackets. What
/// has no column, no comparison or no parts gives no condition.
pub proof fn filters_become_conditions(
    f: FilterModel,
    entry: EntryModel,
    dialect: Dialect,
)
    ensures
        f.member is Some && f.operator is Some ==> condition(f, entry, dialect) == {
            match filter_column(entry, dialect, member_name(f.member->0)) {
                Some(column) => comparison(f.operator->0, column, f.values),
                None => None,
            }
        },
        !(f.member is Some && f.operator is Some) ==> {
            &&& f.and is Some ==> {
                let parts = conditions(f.and->0, entry, dialect);
                &&& parts.len() == 0 ==> condition(f, entry, dialect) is None
                &&& parts.len() > 0 ==> condition(f, entry, dialect) == Some(
                    "("@ + joined(parts, " AND "@) + ")"@,
                )
            }
            &&& f.and is None && f.or is Some ==> {
                let parts = conditions(f.or->0, entry, dialect);
                &&& parts.len() == 0 ==> condition(f, entry, dialect) is None
                &&& parts.len() > 0 ==> condition(f, entry, dialect) == Some(
                    "("@ + joined(parts, " OR "@) + ")"@,
                )
            }
            &&& f.and is None && f.or is None ==> condition(f, entry, dialect) is None
        },
{
}

/// The conditions of several filters are those of each, in their order, and a
/// filter without one adds none.
pub proof fn conditions_are_those_of_each_filter(
    f: FilterModel,
    a: Seq<FilterModel>,
    b: Seq<FilterModel>,
    entry: EntryModel,
    dialect: Dialect,
)
    ensures
        conditions(Seq::empty(), entry, dialect).len() == 0,
        condition(f, entry, dialect) is None ==> conditions(seq![f], entry, dialect).len() == 0,
        condition(f, entry, dialect) is Some ==> conditions(seq![f], entry, dialect) == seq![
            condition(f, entry, dialect)->0,
        ],
        conditions(a + b, entry, dialect) == conditions(a, entry, dialect) + conditions(
            b,
            entry,
            dialect,
        ),
    decreases b.len(),
{
    let none = Seq::<FilterModel>::empty();
    assert(seq![f].drop_last() =~= none);
    assert(seq![f].last() == f);
    assert(conditions(none, entry, dialect) =~= Seq::<Text>::empty());
    if condition(f, entry, dialect) is Some {
        assert(conditions(seq![f], entry, dialect) =~= seq![condition(f, entry, dialect)->0]);
    }
    if b.len() == 0 {
        assert(a + b =~= a);
        assert(conditions(a, entry, dialect) + conditions(b, entry, dialect) =~= conditions(
            a,
            entry,
            dialect,
        ));
    } else {
        conditions_are_those_of_each_filter(f, a, b.drop_last(), entry, dialect);
        assert((a + b).drop_last() =~= a + b.drop_last());
        assert((a + b).last() == b.last());
        assert(conditions(a + b, entry, dialect) =~= conditions(a, entry, dialect) + conditions(
            b,
            entry,
            dialect,
        ));
    }
}

/// What a query selects, up to and with its source.
pub open spec fn selecting(
    request: RequestModel,
    entry: EntryModel,
    source: Text,
    dialect: Dialect,
    tier: Tier,
) -> Text {
    "SELECT "@ + joined(reagg_selects(request, entry, dialect, tier), ", "@) + "\nFROM "@ + source
}

/// What a query groups by, in words: the expressions in the local cache, the
/// positions from one on in the warehouse.
pub open spec fn grouping(
    request: RequestModel,
    entry: EntryModel,
    dialect: Dialect,
    tier: Tier,
) -> Text {
    let groups = reagg_groups(request, entry, dialect);
    joined(
        Seq::new(
            groups.len(),
            |i: int|
                if tier is Local {
                    groups[i].expr
                } else {
                    decimal((i + 1) as nat)
                },
        ),
        ", "@,
    )
}

/// The text of a query is its select list and source, then the conditions behind
/// `WHERE`, the group columns behind `GROUP BY`, and the numbers behind `LIMIT`
/// and `OFFSET`; a clause is there exactly where there is something to put in
/// it. So it is for both tiers.
pub proof fn queries_have_all_their_clauses(
    request: RequestModel,
    entry: EntryModel,
    source: Text,
    dialect: Dialect,
    tier: Tier,
)
    ensures
        ({
            let none = Seq::<char>::empty();
            let parts = conditions(request.filters, entry, dialect);
            let filtered = if parts.len() > 0 {
                "\nWHERE "@ + joined(parts, " AND "@)
            } else {
                none
            };
            let grouped = if reagg_groups(request, entry, dialect).len() > 0 {
                "\nGROUP BY "@ + grouping(request, entry, dialect, tier)
            } else {
                none
            };
            let limited = if request.limit is Some {
                "\nLIMIT "@ + decimal(request.limit->0 as nat)
            } else {
                none
            };
            let moved = if request.offset is Some {
                "\nOFFSET "@ + decimal(request.offset->0 as nat)
            } else {
                none
            };
            reagg_query(request, entry, source, dialect, tier) == selecting(
                request,
                entry,
                source,
                dialect,
                tier,
            ) + filtered + grouped + limited + moved
        }),
{
    let groups = reagg_groups(request, entry, dialect);
    let wanted = Seq::new(
        groups.len(),
        |i: int|
            if tier is Local {
                groups[i].expr
            } else {
                decimal((i + 1) as nat)
            },
    );
    match tier {
        Tier::Local => {
            assert(group_exprs(groups) =~= wanted);
        },
        Tier::Warehouse => {
            assert(ordinals(groups.len()) =~= wanted);
        },
    }
}

/// The text of a query holds all its conditions: directly behind the source
/// stands `WHERE`, and behind it every condition, joined by `AND`, before
/// anything else.
pub proof fn conditions_stand_behind_the_source(
    request: RequestModel,
    entry: EntryModel,
    source: Text,
    dialect: Dialect,
    tier: Tier,
)
    requires
        conditions(request.filters, entry, dialect).len() > 0,
    ensures
        (selecting(request, entry, source, dialect, tier) + "\nWHERE "@ + joined(
            conditions(request.filters, entry, dialect),
            " AND "@,
        )).is_prefix_of(reagg_query(request, entry, source, dialect, tier)),
{
    queries_have_all_their_clauses(request, entry, source, dialect, tier);
    let query = reagg_query(request, entry, source, dialect, tier);
    let head = selecting(request, entry, source, dialect, tier) + "\nWHERE "@ + joined(
        conditions(request.filters, entry, dialect),
        " AND "@,
    );
    assert(head =~= selecting(request, entry, source, dialect, tier) + ("\nWHERE "@ + joined(
        conditions(request.filters, entry, dialect),
        " AND "@,
    )));
    assert(query.subrange(0, head.len() as int) =~= head);
}

/// The answer to a covered query filters by every filter of the query, in its
/// text: one condition for each, in their order, behind the source. The local
/// cache and the warehouse filter by the same text.
pub proof fn covered_queries_filter_in_their_text(
    request: RequestModel,
    entry: EntryModel,
    source: Text,
    dialect: Dialect,
)
    requires
        covered(request, entry),
        all_supported(request.filters),
        request.filters.len() > 0,
    ensures
        ({
            let parts = Seq::new(
                request.filters.len(),
                |i: int| condition(request.filters[i], entry, dialect)->0,
            );
            let filter = "\nWHERE "@ + joined(parts, " AND "@);
            &&& forall|i: int|
                0 <= i < request.filters.len() ==> condition(
                    #[trigger] request.filters[i],
                    entry,
                    dialect,
                ) is Some
            &&& (selecting(request, entry, source, dialect, Tier::Local) + filter).is_prefix_of(
                reagg_query(request, entry, source, dialect, Tier::Local),
            )
            &&& (selecting(request, entry, source, dialect, Tier::Warehouse)
                + filter).is_prefix_of(
                reagg_query(request, entry, source, dialect, Tier::Warehouse),
            )
        }),
{
    covered_query_keeps_its_filters(request, entry, dialect);
    lemma_conditions_line_up(request.filters, entry, dialect);
    let parts = Seq::new(
        request.filters.len(),
        |i: int| condition(request.filters[i], entry, dialect)->0,
    );
    assert(parts =~= conditions(request.filters, entry, dialect));
    conditions_stand_behind_the_source(request, entry, source, dialect, Tier::Local);
    conditions_stand_behind_the_source(request, entry, source, dialect, Tier::Warehouse);
    let filter = "\nWHERE "@ + joined(parts, " AND "@);
    let local = selecting(request, entry, source, dialect, Tier::Local);
    let warehouse = selecting(request, entry, source, dialect, Tier::Warehouse);
    assert(local + "\nWHERE "@ + joined(parts, " AND "@) =~= local + filter);
    assert(warehouse + "\nWHERE "@ + joined(parts, " AND "@) =~= warehouse + filter);
}

/// Filters give at most one condition each; where they give one each, these line
/// up with the filters.
proof fn lemma_conditions_line_up(filters: Seq<FilterModel>, entry: EntryModel, dialect: Dialect)
    ensures
        conditions(filters, entry, dialect).len() <= filters.len(),
        conditions(filters, entry, dialect).len() == filters.len() ==> forall|i: int|
            0 <= i < filters.len() ==> condition(#[trigger] filters[i], entry, dialect) == Some(
                conditions(filters, entry, dialect)[i],
            ),
    decreases filters.len(),
{
    if filters.len() > 0 {
        let rest = filters.drop_last();
        lemma_conditions_line_up(rest, entry, dialect);
        if conditions(filters, entry, dialect).len() == filters.len() {
            assert forall|i: int| 0 <= i < filters.len() implies condition(
                #[trigger] filters[i],
                entry,
                dialect,
            ) == Some(conditions(filters, entry, dialect)[i]) by {
                if i < rest.len() {
                    assert(rest[i] == filters[i]);
                }
            }
        }
    }
}

/// A query reads a Parquet file by its path, as an SQL string.
pub proof fn files_are_read_by_path(path: Text)
    ensures
        parquet_source(path) == "read_parquet("@ + literal(path) + ")"@,
{
    reveal_strlit("'");
    reveal_strlit("read_parquet(");
    reveal_strlit("read_parquet('");
    reveal_strlit(")");
    reveal_strlit("')");
    assert("read_parquet('"@ =~= "read_parquet("@ + "'"@);
    assert("')"@ =~= "'"@ + ")"@);
    assert(parquet_source(path) =~= "read_parquet("@ + literal(path) + ")"@);
}

/// The result of a query calls a member by its reference, with two underscores
/// for each dot.
pub proof fn results_are_called_by_their_reference(member: Text)
    ensures
        flat_name(member) == replaced(member, '.', seq!['_', '_']),
{
    reveal_strlit("__");
    assert("__"@ =~= seq!['_', '_']);
}

/// What a time dimension is read from: the stored column where no granularity is
/// wanted or the stored one is, the stored column cut down where another one is,
/// and the bare name where none is wanted and none is stored.
pub open spec fn time_read_as(
    entry: EntryModel,
    dialect: Dialect,
    td: TimeDimensionModel,
    read: Text,
) -> bool {
    let name = member_name(td.dimension);
    if entry.granularity is None {
        td.granularity is None && read == dialect.quoted(name)
    } else {
        let stored = dialect.quoted(name + "__"@ + entry.granularity->0);
        if td.granularity is None || td.granularity == entry.granularity {
            read == stored
        } else {
            read == dialect.truncated(td.granularity->0, stored)
        }
    }
}

/// A query groups by its dimensions, read by name, and then by its time
/// dimensions, in their order; it leaves out only time dimensions whose
/// granularity is wanted of a rollup that has none.
pub proof fn queries_group_by_what_was_asked(
    request: RequestModel,
    entry: EntryModel,
    dialect: Dialect,
) -> (at: Seq<int>)
    ensures
        ({
            let groups = reagg_groups(request, entry, dialect);
            let n = request.dimensions.len();
            &&& groups.len() == n + at.len()
            &&& forall|i: int|
                0 <= i < n ==> (#[trigger] groups[i]).expr == dialect.quoted(
                    member_name(request.dimensions[i]),
                ) && groups[i].alias == dialect.quoted(flat_name(request.dimensions[i]))
            &&& forall|k: int, l: int| 0 <= k < l < at.len() ==> #[trigger] at[k] < #[trigger] at[l]
            &&& forall|k: int|
                0 <= k < at.len() ==> {
                    &&& 0 <= #[trigger] at[k] < request.time_dimensions.len()
                    &&& time_read_as(
                        entry,
                        dialect,
                        request.time_dimensions[at[k]],
                        groups[n + k].expr,
                    )
                    &&& groups[n + k].alias == dialect.quoted(
                        flat_name(request.time_dimensions[at[k]].dimension),
                    )
                }
            &&& forall|i: int|
                0 <= i < request.time_dimensions.len() && !((
                #[trigger] request.time_dimensions[i]).granularity is Some
                    && entry.granularity is None) ==> at.contains(i)
        }),
{
    let f = |td: TimeDimensionModel| reagg_time(entry, dialect, td);
    let times = request.time_dimensions;
    let at = lemma_filter_map_indices(times, f);
    let groups = reagg_groups(request, entry, dialect);
    let n = request.dimensions.len();
    assert forall|k: int| 0 <= k < at.len() implies {
        &&& 0 <= #[trigger] at[k] < times.len()
        &&& time_read_as(entry, dialect, times[at[k]], groups[n + k].expr)
        &&& groups[n + k].alias == dialect.quoted(flat_name(times[at[k]].dimension))
    } by {
        assert(f(times[at[k]]) == Some(times.filter_map(f)[k]));
        assert(groups[n + k] == times.filter_map(f)[k]);
    }
    assert forall|i: int|
        0 <= i < times.len() && !((#[trigger] times[i]).granularity is Some
            && entry.granularity is None) implies at.contains(i) by {
        assert(f(times[i]) is Some);
    }
    at
}

/// The first of the recorded columns, or the given one where none is recorded.
pub open spec fn first_or(columns: Seq<Text>, default: Text) -> Text {
    if columns.len() > 0 {
        columns[0]
    } else {
        default
    }
}

/// The second of the recorded columns, or the given one where there is none.
pub open spec fn second_or(columns: Seq<Text>, default: Text) -> Text {
    if columns.len() > 1 {
        columns[1]
    } else {
        default
    }
}

/// A measure is computed again by what is recorded of its type, from the columns
/// that are recorded or else the ones that its type would have: sums and counts
/// are added up, an average is divided out, extremes are taken again, distinct
/// values counted. A median and a number can be read back in the local cache
/// alone, and anything else is `NULL`.
pub proof fn recorded_types_decide_the_aggregate(
    dialect: Dialect,
    tier: Tier,
    meta: JsonModel,
    name: Text,
)
    ensures
        ({
            let columns = meta.field_texts("columns"@);
            let sql = meta_aggregate(dialect, tier, meta, name);
            let first = |default: Text| dialect.quoted(first_or(columns, default));
            let second = |default: Text| dialect.quoted(second_or(columns, default));
            let t = meta.field_text("type"@);
            &&& t == Some("sum"@) ==> sql == "SUM("@ + first(name + "__sum"@) + ")"@
            &&& t == Some("count"@) ==> sql == "SUM("@ + first(name + "__count"@) + ")"@
            &&& t == Some("average"@) ==> sql == dialect.as_double(
                "SUM("@ + first(name + "__sum"@) + ")"@,
            ) + " / NULLIF(SUM("@ + second(name + "__count"@) + "), 0)"@
            &&& t == Some("min"@) ==> sql == "MIN("@ + first(name + "__min"@) + ")"@
            &&& t == Some("max"@) ==> sql == "MAX("@ + first(name + "__max"@) + ")"@
            &&& t == Some("count_distinct"@) ==> sql == "COUNT(DISTINCT "@ + first(name) + ")"@
            &&& t == Some("count_distinct_approx"@) ==> sql == "COUNT(DISTINCT "@ + first(name)
                + ")"@
            &&& t == Some("median"@) && tier is Local ==> sql == "MEDIAN("@ + first(name) + ")"@
            &&& t == Some("number"@) && tier is Local ==> sql == first(name + "__value"@)
            &&& (t == Some("median"@) || t == Some("number"@)) && tier is Warehouse ==> sql
                == "NULL"@
            &&& t == Some("custom"@) || t is None ==> sql == "NULL"@
            &&& (forall|m: MeasureType| t != Some(#[trigger] m.label())) ==> sql == "NULL"@
        }),
{
    let t = meta.field_text("type"@);
    match t {
        Some(text) => {
            types_have_their_names(MeasureType::Sum, text);
            types_have_their_names(MeasureType::Count, text);
            types_have_their_names(MeasureType::Average, text);
            types_have_their_names(MeasureType::Min, text);
            types_have_their_names(MeasureType::Max, text);
            types_have_their_names(MeasureType::CountDistinct, text);
            types_have_their_names(MeasureType::CountDistinctApprox, text);
            types_have_their_names(MeasureType::Median, text);
            types_have_their_names(MeasureType::Number, text);
            types_have_their_names(MeasureType::Custom, text);
            match meta_type(meta) {
                Some(m) => {
                    types_have_their_names(m, text);
                },
                None => {},
            }
        },
        None => {},
    }
}

/// A query selects its group columns and then, in the order of asking, each
/// measure that the rollup records, computed by the first object of its name and
/// called by its reference. It leaves out only measures that are not recorded.
pub proof fn queries_compute_what_was_asked(
    request: RequestModel,
    entry: EntryModel,
    dialect: Dialect,
    tier: Tier,
) -> (at: Seq<int>)
    ensures
        ({
            let selects = reagg_selects(request, entry, dialect, tier);
            let groups = reagg_groups(request, entry, dialect);
            let n = groups.len();
            &&& selects.len() == n + at.len()
            &&& forall|i: int|
                0 <= i < n ==> #[trigger] selects[i] == groups[i].expr + " AS "@ + groups[i].alias
            &&& forall|k: int, l: int| 0 <= k < l < at.len() ==> #[trigger] at[k] < #[trigger] at[l]
            &&& forall|k: int|
                0 <= k < at.len() ==> 0 <= #[trigger] at[k] < request.measures.len()
                    && exists|r: int| #[trigger]
                    first_recorded(entry.measures, member_name(request.measures[at[k]]), r)
                        && selects[n + k] == meta_aggregate(
                        dialect,
                        tier,
                        entry.measures[r],
                        member_name(request.measures[at[k]]),
                    ) + " AS "@ + dialect.quoted(flat_name(request.measures[at[k]]))
            &&& forall|i: int, r: int|
                0 <= i < request.measures.len() && 0 <= r < entry.measures.len() && (
                #[trigger] entry.measures[r]).field_text("name"@) == Some(
                    member_name(#[trigger] request.measures[i]),
                ) ==> at.contains(i)
        }),
{
    let f = |measure: Text| reagg_measure(entry, dialect, tier, measure);
    let wanted = request.measures;
    let at = lemma_filter_map_indices(wanted, f);
    let selects = reagg_selects(request, entry, dialect, tier);
    let n = reagg_groups(request, entry, dialect).len();
    assert forall|k: int| 0 <= k < at.len() implies 0 <= #[trigger] at[k] < wanted.len()
        && exists|r: int| #[trigger]
        first_recorded(entry.measures, member_name(wanted[at[k]]), r) && selects[n + k]
            == meta_aggregate(dialect, tier, entry.measures[r], member_name(wanted[at[k]]))
            + " AS "@ + dialect.quoted(flat_name(wanted[at[k]])) by {
        assert(f(wanted[at[k]]) == Some(wanted.filter_map(f)[k]));
        assert(selects[n + k] == wanted.filter_map(f)[k]);
        let r = recorded_measures_are_looked_up(entry.measures, member_name(wanted[at[k]]));
        assert(first_recorded(entry.measures, member_name(wanted[at[k]]), r));
    }
    assert forall|i: int, r: int|
        0 <= i < wanted.len() && 0 <= r < entry.measures.len() && (
        #[trigger] entry.measures[r]).field_text("name"@) == Some(
            member_name(#[trigger] wanted[i]),
        ) implies at.contains(i) by {
        let q = recorded_measures_are_looked_up(entry.measures, member_name(wanted[i]));
        assert(f(wanted[i]) is Some);
    }
    at
}

} // verus!
