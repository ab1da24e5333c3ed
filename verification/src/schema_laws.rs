//! What views, dialects and the rollups of a view are.

use vstd::prelude::*;

use crate::dialect::Dialect;
use crate::rollup::{
    composable_measure, default_rollup, first_temporal, plain_dimension, requested_measure,
    rollups_of, stored_columns, RollupMeasureModel,
};
use crate::schema::{
    dimension_named, measure_named, type_names_read_back, DimensionModel, DimensionType,
    MeasureModel, MeasureType, PreAggregationModel, ViewModel,
};
use crate::sequences::lemma_filter_map_indices;
use crate::text::{upper, Text};

verus! {

/// Each measure type has its name in the manifest, and a text names a type only
/// where it is that type's name.
pub proof fn types_have_their_names(t: MeasureType, name: Text)
    ensures
        MeasureType::Sum.label() == "sum"@,
        MeasureType::Count.label() == "count"@,
        MeasureType::Average.label() == "average"@,
        MeasureType::Min.label() == "min"@,
        MeasureType::Max.label() == "max"@,
        MeasureType::CountDistinct.label() == "count_distinct"@,
        MeasureType::CountDistinctApprox.label() == "count_distinct_approx"@,
        MeasureType::Median.label() == "median"@,
        MeasureType::Number.label() == "number"@,
        MeasureType::Custom.label() == "custom"@,
        MeasureType::named(name) == Some(t) <==> name == t.label(),
{
    type_names_read_back(t);
}

/// A type cannot be aggregated again exactly where it is custom, a number or a
/// median, and needs raw values exactly where it counts distinct ones or is a
/// median.
pub proof fn types_compose_or_keep_raw_values(t: MeasureType)
    ensures
        t.composable() <==> !(t is Custom || t is Number || t is Median),
        t.keeps_raw_values() <==> t is CountDistinct || t is CountDistinctApprox || t is Median,
{
}

/// Dates and times are the temporal types.
pub proof fn dates_and_times_are_temporal(t: DimensionType)
    ensures
        t.temporal() <==> t is Date || t is Datetime,
{
}

/// Whether `i` is the place of the first dimension of that name.
pub open spec fn first_dimension(dimensions: Seq<DimensionModel>, name: Text, i: int) -> bool {
    &&& 0 <= i < dimensions.len()
    &&& dimensions[i].name == name
    &&& forall|j: int| 0 <= j < i ==> (#[trigger] dimensions[j]).name != name
}

/// Whether `i` is the place of the first measure of that name.
pub open spec fn first_measure(measures: Seq<MeasureModel>, name: Text, i: int) -> bool {
    &&& 0 <= i < measures.len()
    &&& measures[i].name == name
    &&& forall|j: int| 0 <= j < i ==> (#[trigger] measures[j]).name != name
}

/// Looking up a dimension gives the first of that name, and nothing only where
/// there is none.
pub proof fn dimensions_are_looked_up(dimensions: Seq<DimensionModel>, name: Text) -> (i: int)
    ensures
        match dimension_named(dimensions, name) {
            Some(d) => first_dimension(dimensions, name, i) && d == dimensions[i],
            None => forall|j: int|
                0 <= j < dimensions.len() ==> (#[trigger] dimensions[j]).name != name,
        },
    decreases dimensions.len(),
{
    if dimensions.len() == 0 || dimensions[0].name == name {
        0
    } else {
        let rest = dimensions.drop_first();
        let k = dimensions_are_looked_up(rest, name);
        assert forall|j: int|
            0 <= j < dimensions.len() && (dimension_named(rest, name) is None || j < k
                + 1) implies (#[trigger] dimensions[j]).name != name by {
            if j > 0 {
                assert(rest[j - 1] == dimensions[j]);
            }
        }
        k + 1
    }
}

/// Looking up a measure gives the first of that name, and nothing only where
/// there is none.
pub proof fn measures_are_looked_up(measures: Seq<MeasureModel>, name: Text) -> (i: int)
    ensures
        match measure_named(measures, name) {
            Some(m) => first_measure(measures, name, i) && m == measures[i],
            None => forall|j: int|
                0 <= j < measures.len() ==> (#[trigger] measures[j]).name != name,
        },
    decreases measures.len(),
{
    if measures.len() == 0 || measures[0].name == name {
        0
    } else {
        let rest = measures.drop_first();
        let k = measures_are_looked_up(rest, name);
        assert forall|j: int|
            0 <= j < measures.len() && (measure_named(rest, name) is None || j < k + 1) implies (
        #[trigger] measures[j]).name != name by {
            if j > 0 {
                assert(rest[j - 1] == measures[j]);
            }
        }
        k + 1
    }
}

/// A view reads its table; without one its query, in brackets; without either
/// what is called as it is. Without a list of measures it has none.
pub proof fn views_read_their_source(view: ViewModel, text: Text, list: Seq<MeasureModel>)
    ensures
        view.table == Some(text) ==> view.source() == text,
        view.table is None && view.sql == Some(text) ==> view.source() == "("@ + text + ")"@,
        view.table is None && view.sql is None ==> view.source() == view.name,
        view.measures == Some(list) ==> view.measure_list() == list,
        view.measures is None ==> view.measure_list().len() == 0,
{
}

/// Whether a dialect quotes identifiers with backticks.
pub open spec fn uses_backticks(dialect: Dialect) -> bool {
    dialect is MySQL || dialect is BigQuery || dialect is Databricks || dialect is Domo
}

/// A quoted identifier is the name between two quote marks of the dialect, in
/// upper case for Snowflake. A table's name is its schema and itself, both
/// quoted, with a dot between them.
pub proof fn identifiers_are_quoted(dialect: Dialect, schema: Text, name: Text)
    ensures
        uses_backticks(dialect) ==> dialect.quoted(name) == seq!['`'] + name + seq!['`'],
        dialect is Snowflake ==> dialect.quoted(name) == seq!['"'] + upper(name) + seq!['"'],
        !uses_backticks(dialect) && !(dialect is Snowflake) ==> dialect.quoted(name) == seq!['"']
            + name + seq!['"'],
        dialect.qualified(schema, name) == dialect.quoted(schema) + seq!['.'] + dialect.quoted(
            name,
        ),
{
    reveal_strlit("`");
    reveal_strlit("\"");
    reveal_strlit(".");
    assert("`"@ =~= seq!['`']);
    assert("\""@ =~= seq!['"']);
    assert("."@ =~= seq!['.']);
}

/// A truncation names the granularity and the expression, in the words of the
/// dialect.
pub proof fn truncations_name_granularity_and_expression(
    dialect: Dialect,
    granularity: Text,
    expr: Text,
)
    ensures
        match dialect {
            Dialect::Postgres
            | Dialect::DuckDB
            | Dialect::Redshift
            | Dialect::SQLite
            | Dialect::Databricks => dialect.truncated(granularity, expr) == "date_trunc('"@
                + granularity + "', "@ + expr + ")"@,
            Dialect::Snowflake | Dialect::Presto => dialect.truncated(granularity, expr)
                == "DATE_TRUNC('"@ + granularity + "', "@ + expr + ")"@,
            Dialect::BigQuery => dialect.truncated(granularity, expr) == "TIMESTAMP_TRUNC("@ + expr
                + ", "@ + upper(granularity) + ")"@,
            _ => true,
        },
{
}

proof fn lemma_granularities_differ()
    ensures
        "second"@ != "minute"@,
        "second"@.len() == 6 && "minute"@.len() == 6,
        "hour"@.len() == 4 && "week"@.len() == 4 && "year"@.len() == 4,
        "day"@.len() == 3 && "month"@.len() == 5 && "quarter"@.len() == 7,
        "hour"@ != "week"@ && "hour"@ != "year"@ && "week"@ != "year"@,
{
    reveal_strlit("second");
    reveal_strlit("minute");
    reveal_strlit("hour");
    reveal_strlit("day");
    reveal_strlit("week");
    reveal_strlit("month");
    reveal_strlit("quarter");
    reveal_strlit("year");
    assert("second"@[0] != "minute"@[0]);
    assert("hour"@[0] != "week"@[0]);
    assert("hour"@[0] != "year"@[0]);
    assert("week"@[0] != "year"@[0]);
}

/// ClickHouse goes to the start of the granularity that is named.
pub proof fn clickhouse_goes_to_the_start(expr: Text)
    ensures
        Dialect::ClickHouse.truncated("second"@, expr) == "toStartOfSecond"@ + "("@ + expr + ")"@,
        Dialect::ClickHouse.truncated("minute"@, expr) == "toStartOfMinute"@ + "("@ + expr + ")"@,
        Dialect::ClickHouse.truncated("hour"@, expr) == "toStartOfHour"@ + "("@ + expr + ")"@,
        Dialect::ClickHouse.truncated("day"@, expr) == "toStartOfDay"@ + "("@ + expr + ")"@,
        Dialect::ClickHouse.truncated("week"@, expr) == "toMonday"@ + "("@ + expr + ")"@,
        Dialect::ClickHouse.truncated("month"@, expr) == "toStartOfMonth"@ + "("@ + expr + ")"@,
        Dialect::ClickHouse.truncated("quarter"@, expr) == "toStartOfQuarter"@ + "("@ + expr
            + ")"@,
        Dialect::ClickHouse.truncated("year"@, expr) == "toStartOfYear"@ + "("@ + expr + ")"@,
{
    lemma_granularities_differ();
}

/// MySQL and Domo write a date with every part that is finer than the
/// granularity set to its start.
pub proof fn mysql_sets_finer_parts(dialect: Dialect, expr: Text)
    requires
        dialect is MySQL || dialect is Domo,
    ensures
        ({
            let date = "DATE_FORMAT("@ + expr + ", '"@;
            &&& dialect.truncated("second"@, expr) == date + "%Y-%m-%d %H:%i:%s"@ + "')"@
            &&& dialect.truncated("minute"@, expr) == date + "%Y-%m-%d %H:%i:00"@ + "')"@
            &&& dialect.truncated("hour"@, expr) == date + "%Y-%m-%d %H:00:00"@ + "')"@
            &&& dialect.truncated("day"@, expr) == date + "%Y-%m-%d 00:00:00"@ + "')"@
            &&& dialect.truncated("month"@, expr) == date + "%Y-%m-01 00:00:00"@ + "')"@
            &&& dialect.truncated("year"@, expr) == date + "%Y-01-01 00:00:00"@ + "')"@
            &&& dialect.truncated("week"@, expr) == "DATE_FORMAT("@ + ("DATE_SUB("@ + expr
                + ", INTERVAL WEEKDAY("@ + expr + ") DAY)"@) + ", '"@ + "%Y-%m-%d 00:00:00"@
                + "')"@
            &&& dialect.truncated("quarter"@, expr) == "DATE_FORMAT("@ + ("MAKEDATE(YEAR("@ + expr
                + "), 1) + INTERVAL (QUARTER("@ + expr + ") - 1) QUARTER"@) + ", '"@
                + "%Y-%m-01 00:00:00"@ + "')"@
        }),
{
    lemma_granularities_differ();
}

/// A granularity that has no name of its own goes to ClickHouse's general
/// function, and leaves the expression as it is in MySQL and Domo.
pub proof fn unknown_granularities_are_passed_on(dialect: Dialect, granularity: Text, expr: Text)
    requires
        granularity != "second"@ && granularity != "minute"@ && granularity != "hour"@,
        granularity != "day"@ && granularity != "week"@ && granularity != "month"@,
        granularity != "quarter"@ && granularity != "year"@,
    ensures
        dialect is ClickHouse ==> dialect.truncated(granularity, expr) == "dateTrunc('"@
            + granularity + "', "@ + expr + ")"@,
        dialect is MySQL || dialect is Domo ==> dialect.truncated(granularity, expr) == expr,
{
}

/// Fractions are computed in the type that the dialect has for them.
pub proof fn fractions_have_a_type(dialect: Dialect, expr: Text)
    ensures
        dialect is Postgres || dialect is Redshift ==> dialect.as_double(expr) == "CAST("@ + expr
            + " AS "@ + "DOUBLE PRECISION"@ + ")"@,
        dialect is BigQuery ==> dialect.as_double(expr) == "CAST("@ + expr + " AS "@ + "FLOAT64"@
            + ")"@,
        dialect is ClickHouse ==> dialect.as_double(expr) == "CAST("@ + expr + " AS "@
            + "Float64"@ + ")"@,
        dialect is MySQL || dialect is Domo ==> dialect.as_double(expr) == "CAST("@ + expr
            + " AS "@ + "DECIMAL(38,10)"@ + ")"@,
        dialect is Snowflake || dialect is DuckDB || dialect is Databricks || dialect is SQLite
            || dialect is Presto ==> dialect.as_double(expr) == "CAST("@ + expr + " AS "@
            + "DOUBLE"@ + ")"@,
{
}

/// A schema is created by name, as a database in ClickHouse; BigQuery has no
/// statement for it.
pub proof fn schemas_are_created_by_name(dialect: Dialect, schema: Text)
    ensures
        dialect is BigQuery <==> dialect.schema_ddl(schema) is None,
        dialect is ClickHouse ==> dialect.schema_ddl(schema) == Some(
            "CREATE DATABASE IF NOT EXISTS "@ + dialect.quoted(schema),
        ),
        !(dialect is BigQuery) && !(dialect is ClickHouse) ==> dialect.schema_ddl(schema) == Some(
            "CREATE SCHEMA IF NOT EXISTS "@ + dialect.quoted(schema),
        ),
{
}

/// A measure is stored in columns that are named after it: sums, counts and
/// extremes under its name, raw values under its expression, or under its name
/// where it has no expression.
pub proof fn columns_are_named_after_their_measure(name: Text, expr: Text)
    ensures
        forall|e: Option<Text>|
            {
                &&& #[trigger] stored_columns(MeasureType::Sum, name, e) == seq![name + "__sum"@]
                &&& stored_columns(MeasureType::Count, name, e) == seq![name + "__count"@]
                &&& stored_columns(MeasureType::Average, name, e) == seq![
                    name + "__sum"@,
                    name + "__count"@,
                ]
                &&& stored_columns(MeasureType::Min, name, e) == seq![name + "__min"@]
                &&& stored_columns(MeasureType::Max, name, e) == seq![name + "__max"@]
                &&& stored_columns(MeasureType::Number, name, e) == seq![name + "__value"@]
                &&& stored_columns(MeasureType::Custom, name, e).len() == 0
            },
        stored_columns(MeasureType::CountDistinct, name, Some(expr)) == seq![expr],
        stored_columns(MeasureType::CountDistinct, name, None) == seq![name],
        stored_columns(MeasureType::CountDistinctApprox, name, Some(expr)) == seq![expr],
        stored_columns(MeasureType::CountDistinctApprox, name, None) == seq![name],
        stored_columns(MeasureType::Median, name, Some(expr)) == seq![expr, expr + "__freq"@],
        stored_columns(MeasureType::Median, name, None) == seq![name, name + "__freq"@],
{
}

/// A view that lists pre-aggregations has one rollup for each, in their order,
/// with the name, dimensions, time dimension and granularity that were asked for.
/// One without a list has one rollup by day, called `default`.
pub proof fn every_rollup_asked_for_is_resolved(view: ViewModel)
    ensures
        match view.pre_aggregations {
            Some(list) => rollups_of(view).len() == list.len() && forall|i: int|
                0 <= i < list.len() ==> {
                    &&& (#[trigger] rollups_of(view)[i]).name == list[i].name
                    &&& rollups_of(view)[i].dimensions == list[i].dimensions
                    &&& rollups_of(view)[i].time_dimension == list[i].time_dimension
                    &&& rollups_of(view)[i].granularity == list[i].granularity
                },
            None => rollups_of(view).len() == 1 && rollups_of(view)[0].name == "default"@
                && rollups_of(view)[0].granularity == Some("day"@),
        },
{
}

/// Whether a measure of a rollup is the view's measure at `v`, with the columns
/// that store it.
pub open spec fn taken_from(m: RollupMeasureModel, view: ViewModel, v: int) -> bool {
    &&& 0 <= v < view.measure_list().len()
    &&& m.name == view.measure_list()[v].name
    &&& m.measure_type == view.measure_list()[v].measure_type
    &&& m.expr == view.measure_list()[v].expr
    &&& m.columns == stored_columns(m.measure_type, m.name, m.expr)
}

/// A rollup that was asked for holds, in the order of asking, the view's first
/// measure of each name asked for, and leaves out only names that the view does
/// not have.
pub proof fn measures_asked_for_are_resolved(
    view: ViewModel,
    list: Seq<PreAggregationModel>,
    i: int,
) -> (at: Seq<int>)
    requires
        view.pre_aggregations == Some(list),
        0 <= i < list.len(),
    ensures
        rollups_of(view)[i].measures.len() == at.len(),
        forall|k: int, l: int| 0 <= k < l < at.len() ==> #[trigger] at[k] < #[trigger] at[l],
        forall|k: int|
            0 <= k < at.len() ==> 0 <= #[trigger] at[k] < list[i].measures.len() && exists|v: int|
                #[trigger] first_measure(view.measure_list(), list[i].measures[at[k]], v)
                    && taken_from(rollups_of(view)[i].measures[k], view, v),
        forall|j: int, v: int|
            0 <= j < list[i].measures.len() && 0 <= v < view.measure_list().len() && (
            #[trigger] view.measure_list()[v]).name == #[trigger] list[i].measures[j]
                ==> at.contains(j),
{
    let names = list[i].measures;
    let all = view.measure_list();
    let f = |name: Text| requested_measure(view, name);
    let at = lemma_filter_map_indices(names, f);
    let measures = rollups_of(view)[i].measures;
    assert(measures == names.filter_map(f));
    assert forall|k: int| 0 <= k < at.len() implies 0 <= #[trigger] at[k] < names.len()
        && exists|v: int| #[trigger]
        first_measure(all, names[at[k]], v) && taken_from(measures[k], view, v) by {
        assert(f(names[at[k]]) == Some(measures[k]));
        let v = measures_are_looked_up(all, names[at[k]]);
        assert(first_measure(all, names[at[k]], v));
        assert(taken_from(measures[k], view, v));
    }
    assert forall|j: int, v: int|
        0 <= j < names.len() && 0 <= v < all.len() && (#[trigger] all[v]).name
            == #[trigger] names[j] implies at.contains(j) by {
        let w = measures_are_looked_up(all, names[j]);
        assert(f(names[j]) is Some);
    }
    at
}

/// A default rollup holds every dimension of the view that is no date or time,
/// in the view's order, and no other.
pub proof fn default_dimensions_are_the_plain_ones(view: ViewModel) -> (at: Seq<int>)
    ensures
        default_rollup(view).dimensions.len() == at.len(),
        forall|k: int, l: int| 0 <= k < l < at.len() ==> #[trigger] at[k] < #[trigger] at[l],
        forall|k: int|
            0 <= k < at.len() ==> {
                &&& 0 <= #[trigger] at[k] < view.dimensions.len()
                &&& default_rollup(view).dimensions[k] == view.dimensions[at[k]].name
                &&& !(view.dimensions[at[k]].dimension_type is Date)
                &&& !(view.dimensions[at[k]].dimension_type is Datetime)
            },
        forall|i: int|
            0 <= i < view.dimensions.len() && !((
            #[trigger] view.dimensions[i]).dimension_type is Date)
                && !(view.dimensions[i].dimension_type is Datetime) ==> at.contains(i),
{
    let f = |d: DimensionModel| plain_dimension(d);
    let at = lemma_filter_map_indices(view.dimensions, f);
    assert forall|i: int|
        0 <= i < view.dimensions.len() && !((#[trigger] view.dimensions[i]).dimension_type is Date)
            && !(view.dimensions[i].dimension_type is Datetime) implies at.contains(i) by {
        assert(f(view.dimensions[i]) is Some);
    }
    at
}

/// A default rollup holds every measure of the view but custom ones, numbers and
/// medians, in the view's order.
pub proof fn default_measures_are_the_composable_ones(view: ViewModel) -> (at: Seq<int>)
    ensures
        default_rollup(view).measures.len() == at.len(),
        forall|k: int, l: int| 0 <= k < l < at.len() ==> #[trigger] at[k] < #[trigger] at[l],
        forall|k: int|
            0 <= k < at.len() ==> taken_from(
                default_rollup(view).measures[k],
                view,
                #[trigger] at[k],
            ),
        forall|i: int|
            0 <= i < view.measure_list().len() ==> {
                let t = (#[trigger] view.measure_list()[i]).measure_type;
                at.contains(i) <==> !(t is Custom || t is Number || t is Median)
            },
{
    let g = |m: MeasureModel| composable_measure(m);
    let all = view.measure_list();
    let at = lemma_filter_map_indices(all, g);
    let measures = default_rollup(view).measures;
    assert forall|k: int| 0 <= k < at.len() implies taken_from(
        measures[k],
        view,
        #[trigger] at[k],
    ) by {
        assert(g(all[at[k]]) == Some(measures[k]));
    }
    assert forall|i: int| 0 <= i < all.len() implies {
        let t = (#[trigger] all[i]).measure_type;
        at.contains(i) <==> !(t is Custom || t is Number || t is Median)
    } by {
        if at.contains(i) {
            let k = choose|k: int| 0 <= k < at.len() && at[k] == i;
            assert(g(all[at[k]]) is Some);
        } else {
            assert(g(all[i]) is None);
        }
    }
    at
}

/// The time dimension of a default rollup is the view's first date or time, and
/// there is none only where the view has none.
pub proof fn default_time_is_the_first_date(view: ViewModel)
    ensures
        match default_rollup(view).time_dimension {
            Some(name) => exists|i: int|
                {
                    &&& 0 <= i < view.dimensions.len()
                    &&& (#[trigger] view.dimensions[i]).name == name
                    &&& view.dimensions[i].dimension_type is Date
                        || view.dimensions[i].dimension_type is Datetime
                    &&& forall|j: int|
                        0 <= j < i ==> !((#[trigger] view.dimensions[j]).dimension_type is Date)
                            && !(view.dimensions[j].dimension_type is Datetime)
                },
            None => forall|j: int|
                0 <= j < view.dimensions.len() ==> !((
                #[trigger] view.dimensions[j]).dimension_type is Date)
                    && !(view.dimensions[j].dimension_type is Datetime),
        },
    decreases view.dimensions.len(),
{
    let dims = view.dimensions;
    if dims.len() > 0 {
        if dims[0].dimension_type.temporal() {
            assert(dims[0].name == dims[0].name);
        } else {
            let rest = dims.drop_first();
            let shorter = ViewModel { dimensions: rest, ..view };
            default_time_is_the_first_date(shorter);
            assert(first_temporal(dims) == first_temporal(rest));
            assert(forall|j: int| 0 < j < dims.len() ==> #[trigger] dims[j] == rest[j - 1]);
            match first_temporal(rest) {
                Some(name) => {
                    let i = choose|i: int|
                        {
                            &&& 0 <= i < rest.len()
                            &&& (#[trigger] rest[i]).name == name
                            &&& rest[i].dimension_type is Date
                                || rest[i].dimension_type is Datetime
                            &&& forall|j: int|
                                0 <= j < i ==> !((#[trigger] rest[j]).dimension_type is Date)
                                    && !(rest[j].dimension_type is Datetime)
                        };
                    assert(dims[i + 1].name == name);
                },
                None => {},
            }
        }
    }
}

} // verus!
