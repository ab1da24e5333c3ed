//! What holds between what a rollup stores and what a query reads from it.

use vstd::prelude::*;

use crate::build_sql::{
    aggregates, aliased, all_aggregates, build_selects, build_statements,
    dimension_column, drop_statement, group_columns, ordinals, raw_columns, raw_group, raw_values,
    table_name, time_column, time_columns,
};
use crate::coverage::{
    coarser_or_equal, covered, filter_served, measure_meta, measure_served, meta_type, time_served,
};
use crate::coverage_laws::selected_as;
use crate::dialect::Dialect;
use crate::filter_sql::filter_column;
use crate::hash::rollup_hash;
use crate::json::{field_named, row_object, text_array, JsonModel};
use crate::manifest::{
    manifest_entry, measure_keys, measure_row, measures_value, EntryModel,
};
use crate::query::{all_filter_members, named_view, RequestModel};
use crate::reagg_sql::{
    meta_aggregate, meta_columns, reagg_groups, reagg_selects, reagg_time_expr, reaggregate, Tier,
};
use crate::rollup::{
    composable_measure, default_rollup, explicit_rollup, first_temporal, measure_names,
    plain_dimension, requested_measure, rollup_measure, rollups_of, stored_columns,
    RollupMeasureModel, RollupModel,
};
use crate::schema::{
    dimension_named, type_names_read_back, DimensionModel, MeasureModel, MeasureType,
    PreAggregationModel, ViewModel,
};
use crate::sequences::{
    lemma_filter_map_keeps, lemma_filter_map_source, lemma_filter_map_total,
};
use crate::text::{
    decimal, distinct, is_qualified, lemma_distinct, member_name, member_view, Text,
};

verus! {

/// Whether an entry of the local cache is the record of a view's rollup.
pub open spec fn records(entry: EntryModel, view: ViewModel, rollup: RollupModel) -> bool {
    &&& entry.view_name == view.name
    &&& entry.rollup_name == rollup.name
    &&& entry.rollup_hash == rollup.hash
    &&& entry.dimensions == rollup.dimensions
    &&& JsonModel::Array(entry.measures) == measures_value(rollup.measures)
    &&& entry.time_dimension == rollup.time_dimension
    &&& entry.granularity == rollup.granularity
}

pub proof fn lemma_measure_object(m: RollupMeasureModel)
    ensures
        row_object(measure_keys(), measure_row(m)).field_text("name"@) == Some(m.name),
        meta_type(row_object(measure_keys(), measure_row(m))) == Some(m.measure_type),
        meta_columns(row_object(measure_keys(), measure_row(m))) == m.columns,
{
    reveal_strlit("name");
    reveal_strlit("type");
    reveal_strlit("columns");
    assert("name"@[0] != "type"@[0]);
    assert("columns"@.len() == 7 && "name"@.len() == 4 && "type"@.len() == 4);
    type_names_read_back(m.measure_type);
    let object = row_object(measure_keys(), measure_row(m));
    let fields = object->Object_0;
    assert(fields.drop_first()[0] == fields[1]);
    assert(fields.drop_first().drop_first()[0] == fields[2]);
    reveal_with_fuel(field_named, 4);
    assert(object.field("columns"@) == Some(text_array(m.columns)));
    let items = text_array(m.columns)->Array_0;
    let f = |item: JsonModel| item.text();
    assert forall|i: int| 0 <= i < items.len() implies f(#[trigger] items[i]) is Some by {}
    lemma_filter_map_total(items, f);
    assert(items.filter_map(f) =~= m.columns);
}

/// What is recorded of the first measure of a name is what the rollup says of
/// it: its type and its columns.
pub proof fn recorded_measures_read_back(measures: Seq<RollupMeasureModel>, i: int)
    requires
        0 <= i < measures.len(),
        forall|j: int| 0 <= j < i ==> (#[trigger] measures[j]).name != measures[i].name,
    ensures
        measure_meta(measures_value(measures)->Array_0, measures[i].name) matches Some(meta)
            && meta_type(meta) == Some(measures[i].measure_type) && meta_columns(meta)
            == measures[i].columns,
    decreases i,
{
    let items = measures_value(measures)->Array_0;
    let rest = measures.drop_first();
    lemma_measure_object(measures[0]);
    assert(items[0] == row_object(measure_keys(), measure_row(measures[0])));
    assert(items.drop_first() =~= measures_value(rest)->Array_0);
    if i > 0 {
        assert(measures[0].name != measures[i].name);
        assert forall|j: int| 0 <= j < i - 1 implies (#[trigger] rest[j]).name
            != rest[i - 1].name by {
            assert(rest[j] == measures[j + 1]);
        }
        recorded_measures_read_back(rest, i - 1);
    }
}

/// A query on a recorded rollup gets a measure back from the columns that the
/// rollup stores for it.
pub proof fn queries_read_recorded_columns(
    entry: EntryModel,
    view: ViewModel,
    rollup: RollupModel,
    dialect: Dialect,
    tier: Tier,
    i: int,
)
    requires
        records(entry, view, rollup),
        0 <= i < rollup.measures.len(),
        forall|j: int| 0 <= j < i ==> (#[trigger] rollup.measures[j]).name
            != rollup.measures[i].name,
    ensures
        ({
            let m = rollup.measures[i];
            measure_meta(entry.measures, m.name) matches Some(meta) && meta_aggregate(
                dialect,
                tier,
                meta,
                m.name,
            ) == match reaggregate(dialect, tier, m.measure_type, m.columns, m.name) {
                Some(sql) => sql,
                None => "NULL"@,
            }
        }),
{
    recorded_measures_read_back(rollup.measures, i);
}

/// Every measure that can be aggregated again is: sums and counts are added up,
/// an average is the sum of the sums over the sum of the counts, extremes are
/// taken again, and distinct values are counted. Each reads the stored columns
/// alone.
pub proof fn measures_are_recombined(
    dialect: Dialect,
    tier: Tier,
    measure_type: MeasureType,
    name: Text,
    expr: Option<Text>,
)
    requires
        measure_type.composable(),
    ensures
        ({
            let columns = stored_columns(measure_type, name, expr);
            reaggregate(dialect, tier, measure_type, columns, name) == Some(
                match measure_type {
                    MeasureType::Sum | MeasureType::Count => "SUM("@ + dialect.quoted(columns[0])
                        + ")"@,
                    MeasureType::Average => dialect.as_double(
                        "SUM("@ + dialect.quoted(columns[0]) + ")"@,
                    ) + " / NULLIF(SUM("@ + dialect.quoted(columns[1]) + "), 0)"@,
                    MeasureType::Min => "MIN("@ + dialect.quoted(columns[0]) + ")"@,
                    MeasureType::Max => "MAX("@ + dialect.quoted(columns[0]) + ")"@,
                    _ => "COUNT(DISTINCT "@ + dialect.quoted(columns[0]) + ")"@,
                },
            )
        }),
{
}

proof fn lemma_aggregates_included(
    dialect: Dialect,
    measures: Seq<RollupMeasureModel>,
    i: int,
    column: Text,
)
    requires
        0 <= i < measures.len(),
        aggregates(dialect, measures[i]).contains(column),
    ensures
        all_aggregates(dialect, measures).contains(column),
    decreases measures.len(),
{
    let before = all_aggregates(dialect, measures.drop_last());
    let last = aggregates(dialect, measures.last());
    let all = all_aggregates(dialect, measures);
    if i < measures.len() - 1 {
        lemma_aggregates_included(dialect, measures.drop_last(), i, column);
        let k = choose|k: int| 0 <= k < before.len() && before[k] == column;
        assert(all[k] == column);
    } else {
        let k = choose|k: int| 0 <= k < last.len() && last[k] == column;
        assert(all[before.len() + k] == column);
    }
}

/// Whether the table of a rollup has a column of that name.
pub open spec fn has_column(
    view: ViewModel,
    rollup: RollupModel,
    dialect: Dialect,
    name: Text,
) -> bool {
    exists|k: int|
        0 <= k < build_selects(view, rollup, dialect).len() && selected_as(
            #[trigger] build_selects(view, rollup, dialect)[k],
            dialect.quoted(name),
        )
}

proof fn lemma_group_column(
    view: ViewModel,
    rollup: RollupModel,
    dialect: Dialect,
    k: int,
    name: Text,
)
    requires
        0 <= k < group_columns(view, rollup, dialect).len(),
        group_columns(view, rollup, dialect)[k].alias == dialect.quoted(name),
    ensures
        has_column(view, rollup, dialect, name),
{
    let groups = group_columns(view, rollup, dialect);
    let selects = build_selects(view, rollup, dialect);
    assert(selects[k] == aliased(groups[k].expr, groups[k].alias));
    assert(selected_as(selects[k], dialect.quoted(name)));
}

/// The raw values of a measure that needs them are columns of the table.
proof fn lemma_raw_column(view: ViewModel, rollup: RollupModel, dialect: Dialect, i: int)
    requires
        0 <= i < rollup.measures.len(),
        raw_values(rollup.measures[i]) is Some,
    ensures
        has_column(view, rollup, dialect, raw_values(rollup.measures[i])->0),
{
    let name = raw_values(rollup.measures[i])->0;
    let f = |m: RollupMeasureModel| raw_values(m);
    let named = rollup.measures.filter_map(f);
    lemma_filter_map_keeps(rollup.measures, f, i);
    lemma_distinct(named);
    let raw = raw_columns(rollup.measures);
    assert(raw.contains(name));
    let j = choose|j: int| 0 <= j < raw.len() && raw[j] == name;
    let dims = rollup.dimensions.filter_map(|n: Text| dimension_column(view, dialect, n));
    let k = dims.len() + time_columns(view, rollup, dialect).len() + j;
    assert(group_columns(view, rollup, dialect)[k] == raw_group(dialect, name));
    lemma_group_column(view, rollup, dialect, k, name);
}

/// The table of a rollup has every column that is recorded for its measures.
pub proof fn recorded_columns_are_built(
    view: ViewModel,
    rollup: RollupModel,
    dialect: Dialect,
    i: int,
    c: int,
)
    requires
        0 <= i < rollup.measures.len(),
        0 <= c < rollup.measures[i].columns.len(),
        rollup.measures[i].columns == stored_columns(
            rollup.measures[i].measure_type,
            rollup.measures[i].name,
            rollup.measures[i].expr,
        ),
    ensures
        has_column(view, rollup, dialect, rollup.measures[i].columns[c]),
{
    let m = rollup.measures[i];
    let name = m.columns[c];
    if raw_values(m) == Some(name) {
        lemma_raw_column(view, rollup, dialect, i);
    } else {
        let columns = aggregates(dialect, m);
        let k = if m.measure_type == MeasureType::Median {
            0
        } else {
            c
        };
        let column = columns[k];
        assert(columns.contains(column));
        lemma_aggregates_included(dialect, rollup.measures, i, column);
        let all = all_aggregates(dialect, rollup.measures);
        let j = choose|j: int| 0 <= j < all.len() && all[j] == column;
        let selects = build_selects(view, rollup, dialect);
        let n = group_columns(view, rollup, dialect).len() as int;
        assert(selects[n + j] == column);
        assert(selected_as(column, dialect.quoted(name)));
    }
}

/// Whether the measures of a rollup name the columns that store them, and the
/// rollup is named by its hash.
pub open spec fn well_formed(rollup: RollupModel) -> bool {
    &&& forall|i: int|
        0 <= i < rollup.measures.len() ==> (#[trigger] rollup.measures[i]).columns
            == stored_columns(
            rollup.measures[i].measure_type,
            rollup.measures[i].name,
            rollup.measures[i].expr,
        )
    &&& rollup.hash == rollup_hash(
        rollup.dimensions,
        measure_names(rollup.measures),
        rollup.time_dimension,
        rollup.granularity,
    )
}

/// Every rollup of a view is well formed, whether it was asked for or is the
/// default.
pub proof fn rollups_are_well_formed(view: ViewModel, i: int)
    requires
        0 <= i < rollups_of(view).len(),
    ensures
        well_formed(rollups_of(view)[i]),
{
    let measures = rollups_of(view)[i].measures;
    assert forall|j: int| 0 <= j < measures.len() implies (#[trigger] measures[j]).columns
        == stored_columns(measures[j].measure_type, measures[j].name, measures[j].expr) by {
        assert(measures.contains(measures[j]));
        match view.pre_aggregations {
            Some(list) => {
                let f = |name: Text| requested_measure(view, name);
                let k = lemma_filter_map_source(list[i].measures, f, measures[j]);
            },
            None => {
                let g = |m: MeasureModel| composable_measure(m);
                let k = lemma_filter_map_source(view.measure_list(), g, measures[j]);
            },
        }
    }
}

/// The table of a rollup has a column for each of its dimensions that the view
/// knows.
pub proof fn dimensions_are_built(
    view: ViewModel,
    rollup: RollupModel,
    dialect: Dialect,
    i: int,
)
    requires
        0 <= i < rollup.dimensions.len(),
        dimension_named(view.dimensions, rollup.dimensions[i]) is Some,
    ensures
        has_column(view, rollup, dialect, rollup.dimensions[i]),
{
    let f = |n: Text| dimension_column(view, dialect, n);
    let dims = rollup.dimensions.filter_map(f);
    lemma_filter_map_keeps(rollup.dimensions, f, i);
    let column = f(rollup.dimensions[i])->0;
    let k = choose|k: int| 0 <= k < dims.len() && dims[k] == column;
    assert(group_columns(view, rollup, dialect)[k] == column);
    lemma_group_column(view, rollup, dialect, k, rollup.dimensions[i]);
}

/// What a record says of a name is what it says of the rollup's first measure
/// of that name.
proof fn lemma_first_of_name(measures: Seq<RollupMeasureModel>, name: Text) -> (i: int)
    requires
        measure_meta(measures_value(measures)->Array_0, name) is Some,
    ensures
        0 <= i < measures.len(),
        measures[i].name == name,
        forall|j: int| 0 <= j < i ==> (#[trigger] measures[j]).name != name,
    decreases measures.len(),
{
    let items = measures_value(measures)->Array_0;
    assert(measures.len() > 0);
    let rest = measures.drop_first();
    lemma_measure_object(measures[0]);
    assert(items[0] == row_object(measure_keys(), measure_row(measures[0])));
    assert(items.drop_first() =~= measures_value(rest)->Array_0);
    if measures[0].name == name {
        0
    } else {
        let k = lemma_first_of_name(rest, name);
        assert forall|j: int| 0 <= j < k + 1 implies (#[trigger] measures[j]).name != name by {
            if j > 0 {
                assert(rest[j - 1] == measures[j]);
            }
        }
        k + 1
    }
}

/// Whether a measure of a covered query is computed from columns of the table:
/// from those of the rollup's measure of that name, which can be aggregated
/// again.
pub open spec fn read_from_table(
    entry: EntryModel,
    view: ViewModel,
    rollup: RollupModel,
    dialect: Dialect,
    tier: Tier,
    name: Text,
    m: RollupMeasureModel,
) -> bool {
    &&& m.name == name
    &&& m.measure_type.composable()
    &&& measure_meta(entry.measures, name) is Some
    &&& Some(meta_aggregate(dialect, tier, measure_meta(entry.measures, name)->0, name))
        == reaggregate(dialect, tier, m.measure_type, m.columns, name)
    &&& forall|c: int|
        0 <= c < m.columns.len() ==> has_column(view, rollup, dialect, #[trigger] m.columns[c])
}

/// A covered query on a recorded rollup computes every measure, and from columns
/// that the rollup's table has.
pub proof fn covered_queries_read_built_columns(
    request: RequestModel,
    entry: EntryModel,
    view: ViewModel,
    rollup: RollupModel,
    dialect: Dialect,
    tier: Tier,
    i: int,
)
    requires
        covered(request, entry),
        records(entry, view, rollup),
        well_formed(rollup),
        0 <= i < request.measures.len(),
    ensures
        exists|k: int|
            0 <= k < rollup.measures.len() && read_from_table(
                entry,
                view,
                rollup,
                dialect,
                tier,
                member_name(request.measures[i]),
                #[trigger] rollup.measures[k],
            ),
{
    let name = member_name(request.measures[i]);
    assert(measure_served(entry, name));
    let k = lemma_first_of_name(rollup.measures, name);
    let m = rollup.measures[k];
    recorded_measures_read_back(rollup.measures, k);
    assert forall|c: int| 0 <= c < m.columns.len() implies has_column(
        view,
        rollup,
        dialect,
        #[trigger] m.columns[c],
    ) by {
        recorded_columns_are_built(view, rollup, dialect, k, c);
    }
    assert(read_from_table(entry, view, rollup, dialect, tier, name, m));
}

/// The table of a rollup has its time dimension under the name by which queries
/// and filters read it.
pub proof fn time_dimension_is_built(
    entry: EntryModel,
    view: ViewModel,
    rollup: RollupModel,
    dialect: Dialect,
    name: Text,
    held: Text,
    wanted: Text,
)
    requires
        records(entry, view, rollup),
        rollup.time_dimension == Some(name),
        rollup.granularity == Some(held),
        dimension_named(view.dimensions, name) is Some,
        !rollup.dimensions.contains(name),
    ensures
        has_column(view, rollup, dialect, time_column(name, held)),
        filter_column(entry, dialect, name) == Some(dialect.quoted(time_column(name, held))),
        reagg_time_expr(dialect, name, None, entry.granularity) == Some(
            dialect.quoted(time_column(name, held)),
        ),
        reagg_time_expr(dialect, name, Some(held), entry.granularity) == Some(
            dialect.quoted(time_column(name, held)),
        ),
        wanted != held ==> reagg_time_expr(dialect, name, Some(wanted), entry.granularity) == Some(
            dialect.truncated(wanted, dialect.quoted(time_column(name, held))),
        ),
{
    let dims = rollup.dimensions.filter_map(|n: Text| dimension_column(view, dialect, n));
    let k = dims.len() as int;
    assert(group_columns(view, rollup, dialect)[k] == time_columns(view, rollup, dialect)[0]);
    lemma_group_column(view, rollup, dialect, k, time_column(name, held));
}

/// The positions after `GROUP BY` are those of the group columns: they stand
/// first in the select list, in order, when a table is built.
pub proof fn build_groups_by_its_group_columns(
    view: ViewModel,
    rollup: RollupModel,
    dialect: Dialect,
    i: int,
)
    requires
        0 <= i < group_columns(view, rollup, dialect).len(),
    ensures
        ordinals(group_columns(view, rollup, dialect).len())[i] == decimal((i + 1) as nat),
        build_selects(view, rollup, dialect)[i] == aliased(
            group_columns(view, rollup, dialect)[i].expr,
            group_columns(view, rollup, dialect)[i].alias,
        ),
{
}

/// The positions after `GROUP BY` are those of the group columns: they stand
/// first in the select list, in order, when a table is queried.
pub proof fn query_groups_by_its_group_columns(
    request: RequestModel,
    entry: EntryModel,
    dialect: Dialect,
    tier: Tier,
    i: int,
)
    requires
        0 <= i < reagg_groups(request, entry, dialect).len(),
    ensures
        ordinals(reagg_groups(request, entry, dialect).len())[i] == decimal((i + 1) as nat),
        reagg_selects(request, entry, dialect, tier)[i] == aliased(
            reagg_groups(request, entry, dialect)[i].expr,
            reagg_groups(request, entry, dialect)[i].alias,
        ),
{
}

/// A table keeps each raw column once, and no other columns raw than those that
/// some measure needs.
pub proof fn raw_columns_are_kept_once(measures: Seq<RollupMeasureModel>, column: Text)
    ensures
        raw_columns(measures).no_duplicates(),
        raw_columns(measures).contains(column) <==> exists|i: int|
            0 <= i < measures.len() && raw_values(#[trigger] measures[i]) == Some(column),
{
    let f = |m: RollupMeasureModel| raw_values(m);
    let named = measures.filter_map(f);
    lemma_distinct(named);
    if named.contains(column) {
        let i = lemma_filter_map_source(measures, f, column);
        assert(raw_values(measures[i]) == Some(column));
    }
    if exists|i: int| 0 <= i < measures.len() && raw_values(#[trigger] measures[i]) == Some(column)
    {
        let i = choose|i: int|
            0 <= i < measures.len() && raw_values(#[trigger] measures[i]) == Some(column);
        lemma_filter_map_keeps(measures, f, i);
    }
}

/// The statements that build a rollup drop and create one table, and the
/// manifest records the same table of the same schema.
pub proof fn build_and_record_name_one_table(
    view: ViewModel,
    rollup: RollupModel,
    schema: Text,
    date: Text,
    dialect: Dialect,
    measures_json: Text,
)
    ensures
        ({
            let bare = table_name(view.name, rollup.hash, date);
            let table = dialect.qualified(schema, bare);
            let statements = build_statements(view, rollup, schema, date, dialect);
            &&& statements.len() == 2
            &&& statements[0] == drop_statement(table)
            &&& ("CREATE TABLE "@ + table).is_prefix_of(statements[1])
            &&& manifest_entry(view, rollup, schema, date, measures_json).table_name == schema
                + "."@ + bare
        }),
{
    let table = dialect.qualified(schema, table_name(view.name, rollup.hash, date));
    let statement = build_statements(view, rollup, schema, date, dialect)[1];
    let head = "CREATE TABLE "@ + table;
    assert(statement.subrange(0, head.len() as int) =~= head);
}

/// A rollup that was asked for holds exactly those of the measures asked for
/// that the view has.
pub proof fn explicit_rollup_holds_what_was_asked(
    view: ViewModel,
    pa: PreAggregationModel,
    m: RollupMeasureModel,
)
    ensures
        explicit_rollup(view, pa).measures.contains(m) <==> exists|i: int|
            0 <= i < pa.measures.len() && requested_measure(view, #[trigger] pa.measures[i])
                == Some(m),
{
    let f = |name: Text| requested_measure(view, name);
    if explicit_rollup(view, pa).measures.contains(m) {
        let i = lemma_filter_map_source(pa.measures, f, m);
        assert(requested_measure(view, pa.measures[i]) == Some(m));
    }
    if exists|i: int|
        0 <= i < pa.measures.len() && requested_measure(view, #[trigger] pa.measures[i]) == Some(
            m,
        ) {
        let i = choose|i: int|
            0 <= i < pa.measures.len() && requested_measure(view, #[trigger] pa.measures[i])
                == Some(m);
        lemma_filter_map_keeps(pa.measures, f, i);
    }
}

/// A default rollup holds exactly the view's dimensions that are no points in
/// time and the view's measures that can be aggregated again.
pub proof fn default_rollup_holds_all_it_can(
    view: ViewModel,
    name: Text,
    m: RollupMeasureModel,
)
    ensures
        default_rollup(view).dimensions.contains(name) <==> exists|i: int|
            0 <= i < view.dimensions.len() && (#[trigger] view.dimensions[i]).name == name
                && !view.dimensions[i].dimension_type.temporal(),
        default_rollup(view).measures.contains(m) <==> exists|i: int|
            0 <= i < view.measure_list().len() && rollup_measure(
                #[trigger] view.measure_list()[i],
            ) == m && m.measure_type.composable(),
{
    let f = |d: DimensionModel| plain_dimension(d);
    let dims = view.dimensions;
    if default_rollup(view).dimensions.contains(name) {
        let i = lemma_filter_map_source(dims, f, name);
        assert(dims[i].name == name && !dims[i].dimension_type.temporal());
    }
    if exists|i: int|
        0 <= i < dims.len() && (#[trigger] dims[i]).name == name
            && !dims[i].dimension_type.temporal() {
        let i = choose|i: int|
            0 <= i < dims.len() && (#[trigger] dims[i]).name == name
                && !dims[i].dimension_type.temporal();
        lemma_filter_map_keeps(dims, f, i);
    }
    let g = |m: MeasureModel| composable_measure(m);
    let list = view.measure_list();
    if default_rollup(view).measures.contains(m) {
        let i = lemma_filter_map_source(list, g, m);
        assert(rollup_measure(list[i]) == m && m.measure_type.composable());
    }
    if exists|i: int|
        0 <= i < list.len() && rollup_measure(#[trigger] list[i]) == m
            && m.measure_type.composable() {
        let i = choose|i: int|
            0 <= i < list.len() && rollup_measure(#[trigger] list[i]) == m
                && m.measure_type.composable();
        lemma_filter_map_keeps(list, g, i);
    }
}

/// Whether the view has a dimension of that name that is no point in time.
pub open spec fn plain_in(view: ViewModel, name: Text) -> bool {
    exists|i: int|
        0 <= i < view.dimensions.len() && (#[trigger] view.dimensions[i]).name == name
            && !view.dimensions[i].dimension_type.temporal()
}

/// Whether the view has a measure of that name that can be aggregated again.
pub open spec fn composable_in(view: ViewModel, name: Text) -> bool {
    exists|i: int|
        0 <= i < view.measure_list().len() && (#[trigger] view.measure_list()[i]).name == name
            && view.measure_list()[i].measure_type.composable()
}

/// Whether a query asks a view for no more than dimensions that are no points
/// in time, measures that can be aggregated again, and the view's first time
/// dimension by day or coarser.
pub open spec fn asks_within(request: RequestModel, view: ViewModel) -> bool {
    let filtered = all_filter_members(request.filters);
    let time = first_temporal(view.dimensions);
    &&& forall|i: int|
        0 <= i < filtered.len() ==> plain_in(view, member_name(#[trigger] filtered[i])) || time
            == Some(member_name(filtered[i]))
    &&& forall|i: int|
        0 <= i < request.members().len() && is_qualified(#[trigger] request.members()[i])
            ==> member_view(request.members()[i]) == view.name
    &&& forall|i: int|
        0 <= i < request.dimensions.len() ==> plain_in(
            view,
            member_name(#[trigger] request.dimensions[i]),
        )
    &&& forall|i: int|
        0 <= i < request.measures.len() ==> composable_in(
            view,
            member_name(#[trigger] request.measures[i]),
        )
    &&& forall|i: int|
        0 <= i < request.time_dimensions.len() ==> time == Some(
            member_name((#[trigger] request.time_dimensions[i]).dimension),
        ) && (request.time_dimensions[i].granularity matches Some(wanted) ==> coarser_or_equal(
            wanted,
            "day"@,
        ))
}

/// A record of measures that can all be aggregated again serves the names of
/// those measures and no others.
proof fn lemma_composable_served(
    entry: EntryModel,
    measures: Seq<RollupMeasureModel>,
    name: Text,
)
    requires
        entry.measures == measures_value(measures)->Array_0,
        forall|i: int|
            0 <= i < measures.len() ==> (#[trigger] measures[i]).measure_type.composable(),
    ensures
        measure_served(entry, name) <==> exists|i: int|
            0 <= i < measures.len() && (#[trigger] measures[i]).name == name,
    decreases measures.len(),
{
    if measures.len() > 0 {
        let rest = measures.drop_first();
        let tail = EntryModel { measures: measures_value(rest)->Array_0, ..entry };
        lemma_measure_object(measures[0]);
        assert(entry.measures[0] == row_object(measure_keys(), measure_row(measures[0])));
        assert(entry.measures.drop_first() =~= tail.measures);
        assert forall|i: int| 0 <= i < rest.len() implies (
        #[trigger] rest[i]).measure_type.composable() by {
            assert(rest[i] == measures[i + 1]);
        }
        lemma_composable_served(tail, rest, name);
        if measures[0].name != name {
            if exists|i: int| 0 <= i < measures.len() && (#[trigger] measures[i]).name == name {
                let i = choose|i: int|
                    0 <= i < measures.len() && (#[trigger] measures[i]).name == name;
                assert(rest[i - 1].name == name);
            }
            if exists|i: int| 0 <= i < rest.len() && (#[trigger] rest[i]).name == name {
                let i = choose|i: int| 0 <= i < rest.len() && (#[trigger] rest[i]).name == name;
                assert(measures[i + 1].name == name);
            }
        }
    }
}

proof fn lemma_default_measures(entry: EntryModel, view: ViewModel, name: Text)
    requires
        records(entry, view, default_rollup(view)),
    ensures
        measure_served(entry, name) <==> composable_in(view, name),
{
    let measures = default_rollup(view).measures;
    let g = |m: MeasureModel| composable_measure(m);
    let list = view.measure_list();
    assert forall|i: int| 0 <= i < measures.len() implies (
    #[trigger] measures[i]).measure_type.composable() by {
        assert(measures.contains(measures[i]));
        let k = lemma_filter_map_source(list, g, measures[i]);
    }
    lemma_composable_served(entry, measures, name);
    if exists|i: int| 0 <= i < measures.len() && (#[trigger] measures[i]).name == name {
        let i = choose|i: int| 0 <= i < measures.len() && (#[trigger] measures[i]).name == name;
        assert(measures.contains(measures[i]));
        let k = lemma_filter_map_source(list, g, measures[i]);
        assert(list[k].name == name && list[k].measure_type.composable());
    }
    if composable_in(view, name) {
        let k = choose|k: int|
            0 <= k < list.len() && (#[trigger] list[k]).name == name
                && list[k].measure_type.composable();
        lemma_filter_map_keeps(list, g, k);
        let i = choose|i: int| 0 <= i < measures.len() && measures[i] == rollup_measure(list[k]);
        assert(measures[i].name == name);
    }
}

/// All views that a query names are one, where all its qualified members name
/// it.
pub proof fn lemma_one_view(request: RequestModel, name: Text)
    ensures
        (forall|i: int| 0 <= i < request.views().len() ==> #[trigger] request.views()[i] == name)
            <==> (forall|i: int|
            0 <= i < request.members().len() && is_qualified(#[trigger] request.members()[i])
                ==> member_view(request.members()[i]) == name),
{
    let members = request.members();
    let views = request.views();
    let f = |m: Text| named_view(m);
    let named = members.filter_map(f);
    lemma_distinct(named);
    assert(views == distinct(named));
    if forall|i: int| 0 <= i < views.len() ==> #[trigger] views[i] == name {
        assert forall|i: int| 0 <= i < members.len() && is_qualified(
            #[trigger] members[i],
        ) implies member_view(members[i]) == name by {
            lemma_filter_map_keeps(members, f, i);
            assert(views.contains(member_view(members[i])));
        }
    }
    if forall|i: int|
        0 <= i < members.len() && is_qualified(#[trigger] members[i]) ==> member_view(members[i])
            == name {
        assert forall|i: int| 0 <= i < views.len() implies #[trigger] views[i] == name by {
            assert(views.contains(views[i]));
            let k = lemma_filter_map_source(members, f, views[i]);
            assert(is_qualified(members[k]));
        }
    }
}

/// The recorded default rollup of a view covers exactly the queries that ask
/// the view for what a default rollup is made to answer.
pub proof fn default_rollup_answers_its_view(
    request: RequestModel,
    entry: EntryModel,
    view: ViewModel,
)
    requires
        records(entry, view, default_rollup(view)),
    ensures
        covered(request, entry) <==> asks_within(request, view),
{
    let rollup = default_rollup(view);
    let no_measure = rollup_measure(arbitrary());
    assert forall|name: Text| #[trigger]
        entry.dimensions.contains(name) == plain_in(view, name) by {
        default_rollup_holds_all_it_can(view, name, no_measure);
    }
    assert forall|name: Text| #[trigger]
        measure_served(entry, name) == composable_in(view, name) by {
        lemma_default_measures(entry, view, name);
    }
    lemma_one_view(request, entry.view_name);
    if covered(request, entry) {
        let filtered = all_filter_members(request.filters);
        assert forall|i: int| 0 <= i < filtered.len() implies plain_in(
            view,
            member_name(#[trigger] filtered[i]),
        ) || first_temporal(view.dimensions) == Some(member_name(filtered[i])) by {
            assert(filter_served(entry, member_name(filtered[i])));
        }
        assert forall|i: int| 0 <= i < request.time_dimensions.len() implies time_served(
            entry,
            #[trigger] request.time_dimensions[i],
        ) by {}
        assert(asks_within(request, view));
    }
    if asks_within(request, view) {
        assert(covered(request, entry));
    }
}

} // verus!
