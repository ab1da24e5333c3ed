//! What the statements that build and record a rollup say.

use vstd::prelude::*;

use crate::build_sql::{
    aggregates, all_aggregates, build_selects, build_statements, dimension_column, group_columns,
    group_aliases, ordinals, raw_columns, raw_values,
};
use crate::dialect::Dialect;
use crate::filter_sql::{literal, literals, literals_read_back, read_string};
use crate::json::{text_array, JsonModel};
use crate::manifest::{
    is_compact_date, manifest_columns, manifest_create, manifest_entry, manifest_row,
    measures_value, sql_date, upsert_statements, ManifestModel,
};
use crate::rollup::{RollupMeasureModel, RollupModel};
use crate::schema::{MeasureType, ViewModel};
use crate::schema_laws::{dimensions_are_looked_up, first_dimension};
use crate::sequences::lemma_filter_map_indices;
use crate::storage_laws::lemma_measure_object;
use crate::text::{decimal, joined, Text};
use crate::text_laws::joining_separates_neighbours;

verus! {

/// `computed AS "name"`, as a column stands in a select list.
pub open spec fn column_as(dialect: Dialect, computed: Text, name: Text) -> Text {
    computed + " AS "@ + dialect.quoted(name)
}

/// Each measure is computed from its own expression, or from all rows where it
/// has none, by the function of its type. Distinct counts need nothing beside
/// their raw values, and a median the number of rows of each of them.
pub proof fn measures_are_computed_from_their_expression(
    dialect: Dialect,
    m: RollupMeasureModel,
    of: Text,
)
    requires
        m.expr == Some(of) || (m.expr is None && of == "*"@),
    ensures
        match m.measure_type {
            MeasureType::Sum => aggregates(dialect, m) == seq![
                column_as(dialect, "SUM"@ + "("@ + of + ")"@, m.name + "__sum"@),
            ],
            MeasureType::Count => aggregates(dialect, m) == seq![
                column_as(dialect, "COUNT"@ + "("@ + of + ")"@, m.name + "__count"@),
            ],
            MeasureType::Average => aggregates(dialect, m) == seq![
                column_as(dialect, "SUM"@ + "("@ + of + ")"@, m.name + "__sum"@),
                column_as(dialect, "COUNT"@ + "("@ + of + ")"@, m.name + "__count"@),
            ],
            MeasureType::Min => aggregates(dialect, m) == seq![
                column_as(dialect, "MIN"@ + "("@ + of + ")"@, m.name + "__min"@),
            ],
            MeasureType::Max => aggregates(dialect, m) == seq![
                column_as(dialect, "MAX"@ + "("@ + of + ")"@, m.name + "__max"@),
            ],
            MeasureType::Number => aggregates(dialect, m) == seq![
                column_as(dialect, of, m.name + "__value"@),
            ],
            MeasureType::Median => aggregates(dialect, m) == seq![
                column_as(
                    dialect,
                    "COUNT"@ + "("@ + "*"@ + ")"@,
                    (if m.expr is Some {
                        of
                    } else {
                        m.name
                    }) + "__freq"@,
                ),
            ],
            _ => aggregates(dialect, m).len() == 0,
        },
{
}

/// The columns of several measures are those of each, in their order.
pub proof fn measures_are_listed_in_order(
    dialect: Dialect,
    a: Seq<RollupMeasureModel>,
    m: RollupMeasureModel,
    b: Seq<RollupMeasureModel>,
)
    ensures
        all_aggregates(dialect, Seq::empty()).len() == 0,
        all_aggregates(dialect, seq![m]) == aggregates(dialect, m),
        all_aggregates(dialect, a + b) == all_aggregates(dialect, a) + all_aggregates(dialect, b),
    decreases b.len(),
{
    let none = Seq::<RollupMeasureModel>::empty();
    assert(seq![m].drop_last() =~= none);
    assert(all_aggregates(dialect, none) =~= Seq::<Text>::empty());
    assert(seq![m].last() == m);
    assert(all_aggregates(dialect, seq![m]) =~= aggregates(dialect, m));
    if b.len() == 0 {
        assert(a + b =~= a);
        assert(all_aggregates(dialect, a) + all_aggregates(dialect, b) =~= all_aggregates(
            dialect,
            a,
        ));
    } else {
        measures_are_listed_in_order(dialect, a, m, b.drop_last());
        assert((a + b).drop_last() =~= a + b.drop_last());
        assert((a + b).last() == b.last());
        assert(all_aggregates(dialect, a + b) =~= all_aggregates(dialect, a) + all_aggregates(
            dialect,
            b,
        ));
    }
}

/// The columns of a measure stand together in the select list of the table,
/// behind the group columns and the columns of the measures before it.
pub proof fn each_measure_is_built(
    view: ViewModel,
    rollup: RollupModel,
    dialect: Dialect,
    i: int,
    c: int,
)
    requires
        0 <= i < rollup.measures.len(),
        0 <= c < aggregates(dialect, rollup.measures[i]).len(),
    ensures
        build_selects(view, rollup, dialect).len() == group_columns(view, rollup, dialect).len()
            + all_aggregates(dialect, rollup.measures).len(),
        ({
            let at = group_columns(view, rollup, dialect).len() + all_aggregates(
                dialect,
                rollup.measures.take(i),
            ).len() + c;
            at < build_selects(view, rollup, dialect).len() && build_selects(
                view,
                rollup,
                dialect,
            )[at] == aggregates(dialect, rollup.measures[i])[c]
        }),
{
    let ms = rollup.measures;
    let m = ms[i];
    let tail = ms.skip(i);
    assert(ms =~= ms.take(i) + tail);
    assert(tail =~= seq![m] + ms.skip(i + 1));
    measures_are_listed_in_order(dialect, ms.take(i), m, tail);
    measures_are_listed_in_order(dialect, seq![m], m, ms.skip(i + 1));
}

/// Whether the table's select list computes a column so, under that name.
pub open spec fn selects_column(
    view: ViewModel,
    rollup: RollupModel,
    dialect: Dialect,
    computed: Text,
    name: Text,
) -> bool {
    build_selects(view, rollup, dialect).contains(column_as(dialect, computed, name))
}

/// The table of a rollup holds the sum, the count or the extreme of a measure's
/// expression under the name that is recorded for it; rows are counted whole only
/// where a count has no expression.
pub proof fn tables_hold_what_measures_ask(
    view: ViewModel,
    rollup: RollupModel,
    dialect: Dialect,
    i: int,
    of: Text,
)
    requires
        0 <= i < rollup.measures.len(),
        rollup.measures[i].expr == Some(of) || (rollup.measures[i].expr is None && of == "*"@),
    ensures
        ({
            let m = rollup.measures[i];
            let holds = |function: Text, suffix: Text|
                selects_column(
                    view,
                    rollup,
                    dialect,
                    function + "("@ + of + ")"@,
                    m.name + suffix,
                );
            match m.measure_type {
                MeasureType::Sum => holds("SUM"@, "__sum"@),
                MeasureType::Count => holds("COUNT"@, "__count"@),
                MeasureType::Average => holds("SUM"@, "__sum"@) && holds("COUNT"@, "__count"@),
                MeasureType::Min => holds("MIN"@, "__min"@),
                MeasureType::Max => holds("MAX"@, "__max"@),
                MeasureType::Number => selects_column(
                    view,
                    rollup,
                    dialect,
                    of,
                    m.name + "__value"@,
                ),
                _ => true,
            }
        }),
{
    let m = rollup.measures[i];
    let columns = aggregates(dialect, m);
    measures_are_computed_from_their_expression(dialect, m, of);
    if columns.len() > 0 {
        each_measure_is_built(view, rollup, dialect, i, 0);
        assert(build_selects(view, rollup, dialect).contains(columns[0]));
    }
    if columns.len() > 1 {
        each_measure_is_built(view, rollup, dialect, i, 1);
        assert(build_selects(view, rollup, dialect).contains(columns[1]));
    }
}

/// The raw values of a measure: its expression, or its name where it has none.
pub open spec fn raw_name(m: RollupMeasureModel) -> Text {
    if m.expr is Some {
        m.expr->0
    } else {
        m.name
    }
}

/// Whether a measure counts distinct values or is a median.
pub open spec fn needs_raw(m: RollupMeasureModel) -> bool {
    m.measure_type is CountDistinct || m.measure_type is CountDistinctApprox
        || m.measure_type is Median
}

/// A further measure adds its raw values to the raw columns exactly where it
/// counts distinct values or is a median, and they are not there yet.
pub proof fn raw_columns_grow_by_need(measures: Seq<RollupMeasureModel>, m: RollupMeasureModel)
    ensures
        raw_columns(Seq::empty()).len() == 0,
        raw_columns(measures.push(m)) == if needs_raw(m) && !raw_columns(measures).contains(
            raw_name(m),
        ) {
            raw_columns(measures).push(raw_name(m))
        } else {
            raw_columns(measures)
        },
{
    let f = |m: RollupMeasureModel| raw_values(m);
    let before = measures.filter_map(f);
    assert(measures.push(m).drop_last() =~= measures);
    assert(measures.push(m).last() == m);
    if needs_raw(m) {
        let after = measures.push(m).filter_map(f);
        assert(after =~= before.push(raw_name(m)));
        assert(after.drop_last() =~= before);
    }
    let none = Seq::<RollupMeasureModel>::empty();
    assert(none.filter_map(f) =~= Seq::<Text>::empty());
}

/// A rollup groups by its dimensions that the view has, in their order, then by
/// its time dimension cut down to its granularity, then by its raw columns. Each
/// is computed by the view's expression and called by its own name.
pub proof fn rollups_group_by_dimensions_time_and_raw_values(
    view: ViewModel,
    rollup: RollupModel,
    dialect: Dialect,
) -> (at: Seq<int>)
    ensures
        forall|k: int, l: int| 0 <= k < l < at.len() ==> #[trigger] at[k] < #[trigger] at[l],
        forall|j: int, d: int|
            0 <= j < rollup.dimensions.len() && 0 <= d < view.dimensions.len() && (
            #[trigger] view.dimensions[d]).name == #[trigger] rollup.dimensions[j]
                ==> at.contains(j),
        forall|k: int|
            0 <= k < at.len() ==> {
                &&& 0 <= #[trigger] at[k] < rollup.dimensions.len()
                &&& group_columns(view, rollup, dialect)[k].alias == dialect.quoted(
                    rollup.dimensions[at[k]],
                )
                &&& exists|d: int| #[trigger]
                    first_dimension(view.dimensions, rollup.dimensions[at[k]], d)
                        && group_columns(view, rollup, dialect)[k].expr == view.dimensions[d].expr
            },
        ({
            let groups = group_columns(view, rollup, dialect);
            let raw = raw_columns(rollup.measures);
            let n = groups.len() - raw.len();
            &&& n == at.len() || n == at.len() + 1
            &&& n == at.len() + 1 <==> rollup.time_dimension is Some && rollup.granularity is Some
                && exists|d: int| #[trigger]
                first_dimension(view.dimensions, rollup.time_dimension->0, d)
            &&& n == at.len() + 1 ==> exists|d: int| #[trigger]
                first_dimension(view.dimensions, rollup.time_dimension->0, d) && groups[n - 1].expr
                    == dialect.truncated(rollup.granularity->0, view.dimensions[d].expr)
            &&& n == at.len() + 1 ==> groups[n - 1].alias == dialect.quoted(
                rollup.time_dimension->0 + "__"@ + rollup.granularity->0,
            )
            &&& forall|k: int|
                n <= k < groups.len() ==> (#[trigger] groups[k]).expr == raw[k - n]
                    && groups[k].alias == dialect.quoted(raw[k - n])
        }),
{
    let f = |name: Text| dimension_column(view, dialect, name);
    let names = rollup.dimensions;
    let at = lemma_filter_map_indices(names, f);
    let dims = names.filter_map(f);
    let groups = group_columns(view, rollup, dialect);
    let raw = raw_columns(rollup.measures);
    let n = groups.len() - raw.len();
    assert forall|k: int| 0 <= k < at.len() implies {
        &&& 0 <= #[trigger] at[k] < names.len()
        &&& groups[k].alias == dialect.quoted(names[at[k]])
        &&& exists|d: int| #[trigger]
            first_dimension(view.dimensions, names[at[k]], d) && groups[k].expr
                == view.dimensions[d].expr
    } by {
        assert(f(names[at[k]]) == Some(dims[k]));
        assert(groups[k] == dims[k]);
        let d = dimensions_are_looked_up(view.dimensions, names[at[k]]);
        assert(first_dimension(view.dimensions, names[at[k]], d));
    }
    assert forall|j: int, d: int|
        0 <= j < names.len() && 0 <= d < view.dimensions.len() && (
        #[trigger] view.dimensions[d]).name == #[trigger] names[j] implies at.contains(j) by {
        let w = dimensions_are_looked_up(view.dimensions, names[j]);
        assert(f(names[j]) is Some);
    }
    if rollup.time_dimension is Some {
        let d = dimensions_are_looked_up(view.dimensions, rollup.time_dimension->0);
        if rollup.granularity is Some {
            if exists|e: int| #[trigger]
                first_dimension(view.dimensions, rollup.time_dimension->0, e) {
                let e = choose|e: int| #[trigger]
                    first_dimension(view.dimensions, rollup.time_dimension->0, e);
                assert(view.dimensions[e].name == rollup.time_dimension->0);
                assert(first_dimension(view.dimensions, rollup.time_dimension->0, d));
            }
        }
    }
    at
}

/// A rollup's table is called after the view, the rollup's hash and the date; it
/// is dropped and then created from the select list, the view's source and a
/// grouping by position. ClickHouse also wants an engine and an order.
pub proof fn tables_are_dropped_and_created(
    view: ViewModel,
    rollup: RollupModel,
    schema: Text,
    date: Text,
    dialect: Dialect,
)
    ensures
        ({
            let table = dialect.qualified(
                schema,
                view.name + "__"@ + rollup.hash + "__"@ + date,
            );
            let selects = joined(build_selects(view, rollup, dialect), ",\n    "@);
            let groups = group_columns(view, rollup, dialect);
            let positions = joined(
                Seq::new(groups.len(), |i: int| decimal((i + 1) as nat)),
                ", "@,
            );
            let aliases = joined(Seq::new(groups.len(), |i: int| groups[i].alias), ", "@);
            let end = selects + "\nFROM "@ + view.source() + "\nGROUP BY "@ + positions;
            let statements = build_statements(view, rollup, schema, date, dialect);
            &&& statements.len() == 2
            &&& statements[0] == "DROP TABLE IF EXISTS "@ + table
            &&& dialect is ClickHouse ==> statements[1] == "CREATE TABLE "@ + table
                + "\nENGINE = MergeTree()\nORDER BY ("@ + aliases + ")\nAS\nSELECT\n    "@ + end
            &&& !(dialect is ClickHouse) ==> statements[1] == "CREATE TABLE "@ + table
                + " AS\nSELECT\n    "@ + end
        }),
{
    let table = dialect.qualified(schema, view.name + "__"@ + rollup.hash + "__"@ + date);
    let selects = joined(build_selects(view, rollup, dialect), ",\n    "@);
    let groups = group_columns(view, rollup, dialect);
    let at = Seq::new(groups.len(), |i: int| decimal((i + 1) as nat));
    let names = Seq::new(groups.len(), |i: int| groups[i].alias);
    assert(ordinals(groups.len()) =~= at);
    assert(group_aliases(groups) =~= names);
    let positions = joined(at, ", "@);
    let aliases = joined(names, ", "@);
    let end = selects + "\nFROM "@ + view.source() + "\nGROUP BY "@ + positions;
    let statements = build_statements(view, rollup, schema, date, dialect);
    if dialect is ClickHouse {
        assert(statements[1] =~= "CREATE TABLE "@ + table + "\nENGINE = MergeTree()\nORDER BY ("@
            + aliases + ")\nAS\nSELECT\n    "@ + end);
    } else {
        assert(statements[1] =~= "CREATE TABLE "@ + table + " AS\nSELECT\n    "@ + end);
    }
}

/// The record of a rollup names the view, the rollup, its hash, its table with
/// the schema, its dimensions, its time dimension, its granularity and the date
/// of the build.
pub proof fn records_name_the_rollup(
    view: ViewModel,
    rollup: RollupModel,
    schema: Text,
    date: Text,
    measures_json: Text,
)
    ensures
        ({
            let entry = manifest_entry(view, rollup, schema, date, measures_json);
            &&& entry.view_name == view.name
            &&& entry.rollup_name == rollup.name
            &&& entry.rollup_hash == rollup.hash
            &&& entry.table_name == schema + "."@ + (view.name + "__"@ + rollup.hash + "__"@
                + date)
            &&& entry.dimensions == rollup.dimensions
            &&& entry.measures_json == measures_json
            &&& entry.time_dimension == rollup.time_dimension
            &&& entry.granularity == rollup.granularity
            &&& entry.build_date == sql_date(date)
        }),
{
}

/// A date of eight digits is written with a dash before its month and before its
/// day; any other text is left as it is.
pub proof fn compact_dates_get_dashes(date: Text, i: int)
    ensures
        is_compact_date(date) <==> date.len() == 8 && forall|k: int|
            0 <= k < 8 ==> '0' <= #[trigger] date[k] <= '9',
        !is_compact_date(date) ==> sql_date(date) == date,
        is_compact_date(date) ==> {
            &&& sql_date(date).len() == 10
            &&& sql_date(date)[4] == '-'
            &&& sql_date(date)[7] == '-'
            &&& 0 <= i < 4 ==> sql_date(date)[i] == date[i]
            &&& 4 <= i < 6 ==> sql_date(date)[i + 1] == date[i]
            &&& 6 <= i < 8 ==> sql_date(date)[i + 2] == date[i]
        },
{
    reveal_strlit("-");
    assert("-"@.len() == 1 && "-"@[0] == '-');
}

/// The manifest lists one object for each measure, in order, with its name, the
/// name of its type and its columns.
pub proof fn recorded_objects_describe_measures(measures: Seq<RollupMeasureModel>, i: int)
    requires
        0 <= i < measures.len(),
    ensures
        measures_value(measures) is Array,
        measures_value(measures)->Array_0.len() == measures.len(),
        ({
            let object = measures_value(measures)->Array_0[i];
            &&& object.field_text("name"@) == Some(measures[i].name)
            &&& object.field_text("type"@) == Some(measures[i].measure_type.label())
            &&& object.field_texts("columns"@) == measures[i].columns
        }),
{
    lemma_measure_object(measures[i]);
}

/// A list of texts is the array of its strings, in order.
pub proof fn lists_are_arrays_of_strings(texts: Seq<Text>, i: int)
    requires
        0 <= i < texts.len(),
    ensures
        text_array(texts) is Array,
        text_array(texts)->Array_0.len() == texts.len(),
        text_array(texts)->Array_0[i] == JsonModel::Str(texts[i]),
{
}

/// Reads `count` SQL strings that are separated by a comma and a space: what they
/// hold, and what follows them.
pub open spec fn read_strings(s: Text, count: nat) -> Option<(Seq<Text>, Text)>
    decreases count,
{
    if count == 0 {
        Some((Seq::empty(), s))
    } else if s.len() == 0 || s[0] != '\'' {
        None
    } else {
        match read_string(s.skip(1)) {
            Some((value, rest)) => if count == 1 {
                Some((seq![value], rest))
            } else if rest.len() < 2 || rest[0] != ',' || rest[1] != ' ' {
                None
            } else {
                match read_strings(rest.skip(2), (count - 1) as nat) {
                    Some((values, end)) => Some((seq![value] + values, end)),
                    None => None,
                }
            },
            None => None,
        }
    }
}

proof fn lemma_strings_read_back(values: Seq<Text>, rest: Text)
    requires
        values.len() > 0,
        rest.len() == 0 || rest[0] != '\'',
    ensures
        read_strings(joined(literals(values), ", "@) + rest, values.len()) == Some((values, rest)),
    decreases values.len(),
{
    reveal_strlit(", ");
    let s = joined(literals(values), ", "@) + rest;
    if values.len() == 1 {
        assert(literals(values) =~= seq![literal(values[0])]);
        literals_read_back(values[0], rest);
        assert(seq![values[0]] =~= values);
    } else {
        let tail = values.skip(1);
        let end = ", "@ + joined(literals(tail), ", "@) + rest;
        assert(literals(values) =~= seq![literal(values[0])] + literals(tail));
        joining_separates_neighbours(
            seq![literal(values[0])],
            literal(values[0]),
            literals(tail),
            ", "@,
        );
        assert(s =~= literal(values[0]) + end);
        literals_read_back(values[0], end);
        assert(end.skip(2) =~= joined(literals(tail), ", "@) + rest);
        lemma_strings_read_back(tail, rest);
        assert(seq![values[0]] + tail =~= values);
    }
}

/// The names of the manifest's columns, in order.
pub open spec fn column_names() -> Seq<Text> {
    seq![
        "view_name"@,
        "rollup_name"@,
        "rollup_hash"@,
        "table_name"@,
        "dimensions"@,
        "measures"@,
        "time_dimension"@,
        "granularity"@,
        "build_date"@,
    ]
}

/// The inserted row reads back as the entry: its strings are, in the order of the
/// columns, what the entry says, with an empty string for a time dimension or a
/// granularity exactly where there is none.
pub proof fn recorded_rows_read_back(entry: ManifestModel, dimensions_json: Text)
    ensures
        ({
            let row = manifest_row(entry, dimensions_json);
            let none = Seq::<char>::empty();
            let values = seq![
                entry.view_name,
                entry.rollup_name,
                entry.rollup_hash,
                entry.table_name,
                dimensions_json,
                entry.measures_json,
                if entry.time_dimension is Some {
                    entry.time_dimension->0
                } else {
                    none
                },
                if entry.granularity is Some {
                    entry.granularity->0
                } else {
                    none
                },
                entry.build_date,
            ];
            &&& row.len() > 0
            &&& row[0] == '('
            &&& read_strings(row.skip(1), 9) == Some((values, seq![')']))
        }),
{
    let row = manifest_row(entry, dimensions_json);
    let none = Seq::<char>::empty();
    let values = seq![
        entry.view_name,
        entry.rollup_name,
        entry.rollup_hash,
        entry.table_name,
        dimensions_json,
        entry.measures_json,
        if entry.time_dimension is Some {
            entry.time_dimension->0
        } else {
            none
        },
        if entry.granularity is Some {
            entry.granularity->0
        } else {
            none
        },
        entry.build_date,
    ];
    reveal_strlit("(");
    reveal_strlit(")");
    assert("("@.len() == 1 && "("@[0] == '(');
    assert(")"@ =~= seq![')']);
    lemma_strings_read_back(values, seq![')']);
    assert(row =~= "("@ + joined(literals(values), ", "@) + seq![')']);
    assert(row.skip(1) =~= joined(literals(values), ", "@) + seq![')']);
}

/// Two entries that are recorded by the same row say the same, but that a time
/// dimension or granularity of no characters is recorded as one that is missing.
pub proof fn different_entries_have_different_rows(
    a: ManifestModel,
    b: ManifestModel,
    a_json: Text,
    b_json: Text,
)
    requires
        manifest_row(a, a_json) == manifest_row(b, b_json),
        a.time_dimension != Some(Seq::<char>::empty()),
        b.time_dimension != Some(Seq::<char>::empty()),
        a.granularity != Some(Seq::<char>::empty()),
        b.granularity != Some(Seq::<char>::empty()),
    ensures
        a.view_name == b.view_name,
        a.rollup_name == b.rollup_name,
        a.rollup_hash == b.rollup_hash,
        a.table_name == b.table_name,
        a_json == b_json,
        a.measures_json == b.measures_json,
        a.time_dimension == b.time_dimension,
        a.granularity == b.granularity,
        a.build_date == b.build_date,
{
    recorded_rows_read_back(a, a_json);
    recorded_rows_read_back(b, b_json);
    let va = read_strings(manifest_row(a, a_json).skip(1), 9)->0;
    let vb = read_strings(manifest_row(b, b_json).skip(1), 9)->0;
    let (x, _) = va;
    let (y, _) = vb;
    assert(x == y);
    assert(x[0] == y[0] && x[1] == y[1] && x[2] == y[2] && x[3] == y[3] && x[4] == y[4] && x[5]
        == y[5] && x[6] == y[6] && x[7] == y[7] && x[8] == y[8]);
}

proof fn lemma_column_names()
    ensures
        joined(column_names(), ", "@)
            == "view_name, rollup_name, rollup_hash, table_name, dimensions, measures, time_dimension, granularity, build_date"@,
{
    let names = column_names();
    reveal_with_fuel(joined, 10);
    reveal_strlit(", ");
    reveal_strlit("view_name");
    reveal_strlit("rollup_name");
    reveal_strlit("rollup_hash");
    reveal_strlit("table_name");
    reveal_strlit("dimensions");
    reveal_strlit("measures");
    reveal_strlit("time_dimension");
    reveal_strlit("granularity");
    reveal_strlit("build_date");
    reveal_strlit(
        "view_name, rollup_name, rollup_hash, table_name, dimensions, measures, time_dimension, granularity, build_date",
    );
    assert(joined(names, ", "@) =~= names[0] + ", "@ + names[1] + ", "@ + names[2] + ", "@
        + names[3] + ", "@ + names[4] + ", "@ + names[5] + ", "@ + names[6] + ", "@ + names[7]
        + ", "@ + names[8]);
    assert(joined(names, ", "@)
        =~= "view_name, rollup_name, rollup_hash, table_name, dimensions, measures, time_dimension, granularity, build_date"@);
}

/// A record is inserted under the names of the columns, last of the statements;
/// but for ClickHouse and SQLite, the row of the same view and rollup is deleted
/// first. No dialect does anything else.
pub proof fn records_are_inserted_by_column(
    schema: Text,
    entry: ManifestModel,
    dimensions_json: Text,
    dialect: Dialect,
)
    ensures
        ({
            let statements = upsert_statements(schema, entry, dimensions_json, dialect);
            let table = dialect.qualified(schema, "__manifest"@);
            let insert = table + (" ("@ + joined(column_names(), ", "@) + ") VALUES "@)
                + manifest_row(entry, dimensions_json);
            let delete = "DELETE FROM "@ + table + " WHERE view_name = "@ + literal(
                entry.view_name,
            ) + " AND rollup_name = "@ + literal(entry.rollup_name);
            match dialect {
                Dialect::ClickHouse => statements == seq!["INSERT INTO "@ + insert],
                Dialect::SQLite => statements == seq!["INSERT OR REPLACE INTO "@ + insert],
                _ => statements == seq![delete, "INSERT INTO "@ + insert],
            }
        }),
{
    let statements = upsert_statements(schema, entry, dimensions_json, dialect);
    let table = dialect.qualified(schema, "__manifest"@);
    let names =
        "view_name, rollup_name, rollup_hash, table_name, dimensions, measures, time_dimension, granularity, build_date"@;
    let middle =
        " (view_name, rollup_name, rollup_hash, table_name, dimensions, measures, time_dimension, granularity, build_date) VALUES "@;
    let row = manifest_row(entry, dimensions_json);
    lemma_column_names();
    assert(" ("@ + names + ") VALUES "@ =~= middle) by {
        reveal_strlit(" (");
        reveal_strlit(") VALUES ");
        reveal_strlit(
            "view_name, rollup_name, rollup_hash, table_name, dimensions, measures, time_dimension, granularity, build_date",
        );
        reveal_strlit(
            " (view_name, rollup_name, rollup_hash, table_name, dimensions, measures, time_dimension, granularity, build_date) VALUES ",
        );
    }
    let insert = table + middle + row;
    assert("INSERT INTO "@ + table + middle + row =~= "INSERT INTO "@ + insert);
    assert("INSERT OR REPLACE INTO "@ + table + middle + row =~= "INSERT OR REPLACE INTO "@
        + insert);
}

/// A column of the manifest's table as it is declared.
pub open spec fn declared(name: Text, column_type: Text) -> Text {
    "\n    "@ + name + " "@ + column_type
}

/// The manifest's table has exactly the columns of the records, all of them texts
/// but the date, and a key of view and rollup where the dialect has one.
pub proof fn manifests_have_the_columns_of_records(schema: Text, dialect: Dialect)
    ensures
        ({
            let (text, date) = match dialect {
                Dialect::ClickHouse => ("String"@, "Date"@),
                Dialect::BigQuery => ("STRING"@, "DATE"@),
                Dialect::SQLite => ("TEXT"@, "TEXT"@),
                _ => ("VARCHAR"@, "DATE"@),
            };
            let end = match dialect {
                Dialect::ClickHouse =>
                    "\n) ENGINE = ReplacingMergeTree(build_date)\nORDER BY (view_name, rollup_name)"@,
                Dialect::BigQuery => "\n)"@,
                Dialect::SQLite => ",\n    UNIQUE (view_name, rollup_name)\n)"@,
                _ => ",\n    PRIMARY KEY (view_name, rollup_name)\n)"@,
            };
            let columns = Seq::new(
                9,
                |i: int|
                    declared(
                        column_names()[i],
                        if i == 8 {
                            date
                        } else {
                            text
                        },
                    ),
            );
            manifest_create(schema, dialect) == "CREATE TABLE IF NOT EXISTS "@ + dialect.qualified(
                schema,
                "__manifest"@,
            ) + " ("@ + joined(columns, ","@) + end
        }),
{
    let (text, date) = match dialect {
        Dialect::ClickHouse => ("String"@, "Date"@),
        Dialect::BigQuery => ("STRING"@, "DATE"@),
        Dialect::SQLite => ("TEXT"@, "TEXT"@),
        _ => ("VARCHAR"@, "DATE"@),
    };
    let end = match dialect {
        Dialect::ClickHouse =>
            "\n) ENGINE = ReplacingMergeTree(build_date)\nORDER BY (view_name, rollup_name)"@,
        Dialect::BigQuery => "\n)"@,
        Dialect::SQLite => ",\n    UNIQUE (view_name, rollup_name)\n)"@,
        _ => ",\n    PRIMARY KEY (view_name, rollup_name)\n)"@,
    };
    let columns = Seq::new(
        9,
        |i: int|
            declared(
                column_names()[i],
                if i == 8 {
                    date
                } else {
                    text
                },
            ),
    );
    lemma_declared_columns(text, date, columns);
    let table = dialect.qualified(schema, "__manifest"@);
    assert(manifest_create(schema, dialect) =~= "CREATE TABLE IF NOT EXISTS "@ + table + " ("@
        + joined(columns, ","@) + end);
}

/// Adds the column at `k` to what is declared before it.
proof fn lemma_declared_step(
    head: Text,
    columns: Seq<Text>,
    k: int,
    name: Text,
    written: Text,
    column_type: Text,
)
    requires
        1 <= k < columns.len(),
        columns[k] == declared(name, column_type),
        written == ","@ + "\n    "@ + name + " "@,
    ensures
        head + joined(columns.take(k + 1), ","@) == head + joined(columns.take(k), ","@) + written
            + column_type,
{
    assert(columns.take(k + 1).drop_last() =~= columns.take(k));
    assert(columns.take(k + 1).last() == columns[k]);
    let before = joined(columns.take(k), ","@);
    assert(joined(columns.take(k + 1), ","@) == before + ","@ + columns[k]);
    assert(head + (before + ","@ + declared(name, column_type)) =~= head + before + written
        + column_type);
}

proof fn lemma_declared_columns(text: Text, date: Text, columns: Seq<Text>)
    requires
        columns.len() == 9,
        forall|i: int|
            0 <= i < 9 ==> #[trigger] columns[i] == declared(
                column_names()[i],
                if i == 8 {
                    date
                } else {
                    text
                },
            ),
    ensures
        manifest_columns(text, date) == " ("@ + joined(columns, ","@),
{
    lemma_declared_literals();
    let h = " ("@;
    assert(columns.take(1) =~= seq![columns[0]]);
    assert(h + joined(columns.take(1), ","@) =~= " (\n    view_name "@ + text) by {
        assert(columns[0] == declared("view_name"@, text));
        assert(" (\n    view_name "@ =~= " ("@ + "\n    "@ + "view_name"@ + " "@) by {
            reveal_strlit(" (\n    view_name ");
            reveal_strlit(" (");
            reveal_strlit("\n    ");
            reveal_strlit("view_name");
            reveal_strlit(" ");
        }
    }
    lemma_declared_step(h, columns, 1, "rollup_name"@, ",\n    rollup_name "@, text);
    lemma_declared_step(h, columns, 2, "rollup_hash"@, ",\n    rollup_hash "@, text);
    lemma_declared_step(h, columns, 3, "table_name"@, ",\n    table_name "@, text);
    lemma_declared_step(h, columns, 4, "dimensions"@, ",\n    dimensions "@, text);
    lemma_declared_step(h, columns, 5, "measures"@, ",\n    measures "@, text);
    lemma_declared_step(h, columns, 6, "time_dimension"@, ",\n    time_dimension "@, text);
    lemma_declared_step(h, columns, 7, "granularity"@, ",\n    granularity "@, text);
    lemma_declared_step(h, columns, 8, "build_date"@, ",\n    build_date "@, date);
    assert(columns.take(9) =~= columns);
}

proof fn lemma_declared_literals()
    ensures
        ",\n    rollup_name "@ == ","@ + "\n    "@ + "rollup_name"@ + " "@,
        ",\n    rollup_hash "@ == ","@ + "\n    "@ + "rollup_hash"@ + " "@,
        ",\n    table_name "@ == ","@ + "\n    "@ + "table_name"@ + " "@,
        ",\n    dimensions "@ == ","@ + "\n    "@ + "dimensions"@ + " "@,
        ",\n    measures "@ == ","@ + "\n    "@ + "measures"@ + " "@,
        ",\n    time_dimension "@ == ","@ + "\n    "@ + "time_dimension"@ + " "@,
        ",\n    granularity "@ == ","@ + "\n    "@ + "granularity"@ + " "@,
        ",\n    build_date "@ == ","@ + "\n    "@ + "build_date"@ + " "@,
{
    reveal_strlit(",");
    reveal_strlit("\n    ");
    reveal_strlit(" ");
    reveal_strlit("rollup_name");
    reveal_strlit(",\n    rollup_name ");
    assert(",\n    rollup_name "@ =~= ","@ + "\n    "@ + "rollup_name"@ + " "@);
    reveal_strlit("rollup_hash");
    reveal_strlit(",\n    rollup_hash ");
    assert(",\n    rollup_hash "@ =~= ","@ + "\n    "@ + "rollup_hash"@ + " "@);
    reveal_strlit("table_name");
    reveal_strlit(",\n    table_name ");
    assert(",\n    table_name "@ =~= ","@ + "\n    "@ + "table_name"@ + " "@);
    reveal_strlit("dimensions");
    reveal_strlit(",\n    dimensions ");
    assert(",\n    dimensions "@ =~= ","@ + "\n    "@ + "dimensions"@ + " "@);
    reveal_strlit("measures");
    reveal_strlit(",\n    measures ");
    assert(",\n    measures "@ =~= ","@ + "\n    "@ + "measures"@ + " "@);
    reveal_strlit("time_dimension");
    reveal_strlit(",\n    time_dimension ");
    assert(",\n    time_dimension "@ =~= ","@ + "\n    "@ + "time_dimension"@ + " "@);
    reveal_strlit("granularity");
    reveal_strlit(",\n    granularity ");
    assert(",\n    granularity "@ =~= ","@ + "\n    "@ + "granularity"@ + " "@);
    reveal_strlit("build_date");
    reveal_strlit(",\n    build_date ");
    assert(",\n    build_date "@ =~= ","@ + "\n    "@ + "build_date"@ + " "@);
}

} // verus!
