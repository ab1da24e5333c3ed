//! The SQL that builds a rollup's table.

use vstd::prelude::*;

use crate::dialect::Dialect;
use crate::rollup::{
    raw_column, raw_column_of, RollupMeasure, RollupMeasureModel, RollupModel, RollupSpec,
};
use crate::schema::{dimension_named, find_dimension, MeasureType, ViewDef, ViewModel};
use crate::text::{
    contains_text, decimal, distinct, enclose, join, joined, push_text, suffixed, to_decimal, Text,
};

verus! {

/// A column that a rollup groups by: what it computes, and what it is called.
pub struct GroupColumn {
    pub expr: String,
    pub alias: String,
}

/// What a `GroupColumn` says.
pub ghost struct GroupColumnModel {
    pub expr: Text,
    pub alias: Text,
}

impl DeepView for GroupColumn {
    type V = GroupColumnModel;

    open spec fn deep_view(&self) -> GroupColumnModel {
        GroupColumnModel { expr: self.expr@, alias: self.alias@ }
    }
}

/// `expr AS alias`.
pub open spec fn aliased(expr: Text, alias: Text) -> Text {
    expr + " AS "@ + alias
}

/// The name of a rollup's table, without its schema.
pub open spec fn table_name(view_name: Text, hash: Text, date: Text) -> Text {
    view_name + "__"@ + hash + "__"@ + date
}

/// The column of a time dimension that is stored at a granularity.
pub open spec fn time_column(name: Text, granularity: Text) -> Text {
    name + "__"@ + granularity
}

/// The column for a dimension of the rollup; a name that the view does not have
/// gives none.
pub open spec fn dimension_column(
    view: ViewModel,
    dialect: Dialect,
    name: Text,
) -> Option<GroupColumnModel> {
    match dimension_named(view.dimensions, name) {
        Some(dimension) => Some(
            GroupColumnModel { expr: dimension.expr, alias: dialect.quoted(name) },
        ),
        None => None,
    }
}

/// The column for the rollup's time dimension, cut down to its granularity.
pub open spec fn time_columns(
    view: ViewModel,
    rollup: RollupModel,
    dialect: Dialect,
) -> Seq<GroupColumnModel> {
    match (rollup.time_dimension, rollup.granularity) {
        (Some(name), Some(granularity)) => match dimension_named(view.dimensions, name) {
            Some(dimension) => seq![
                GroupColumnModel {
                    expr: dialect.truncated(granularity, dimension.expr),
                    alias: dialect.quoted(time_column(name, granularity)),
                },
            ],
            None => seq![],
        },
        _ => seq![],
    }
}

/// The raw values that a measure needs in the table, if it needs them.
pub open spec fn raw_values(m: RollupMeasureModel) -> Option<Text> {
    if m.measure_type.keeps_raw_values() {
        Some(raw_column(m.name, m.expr))
    } else {
        None
    }
}

/// The raw columns of the rollup, each once.
pub open spec fn raw_columns(measures: Seq<RollupMeasureModel>) -> Seq<Text> {
    distinct(measures.filter_map(|m: RollupMeasureModel| raw_values(m)))
}

/// A raw column, kept under its own name.
pub open spec fn raw_group(dialect: Dialect, column: Text) -> GroupColumnModel {
    GroupColumnModel { expr: column, alias: dialect.quoted(column) }
}

/// Everything that the rollup groups by: its dimensions, its time dimension and
/// the raw columns of its measures.
pub open spec fn group_columns(
    view: ViewModel,
    rollup: RollupModel,
    dialect: Dialect,
) -> Seq<GroupColumnModel> {
    rollup.dimensions.filter_map(|name: Text| dimension_column(view, dialect, name))
        + time_columns(view, rollup, dialect) + raw_columns(rollup.measures).map_values(
        |column: Text| raw_group(dialect, column),
    )
}

/// The group columns as they stand in the select list.
pub open spec fn group_selects(columns: Seq<GroupColumnModel>) -> Seq<Text> {
    columns.map_values(|c: GroupColumnModel| aliased(c.expr, c.alias))
}

/// The aliases of the group columns.
pub open spec fn group_aliases(columns: Seq<GroupColumnModel>) -> Seq<Text> {
    columns.map_values(|c: GroupColumnModel| c.alias)
}

/// The expression that a measure aggregates; `*` where it has none.
pub open spec fn aggregated(m: RollupMeasureModel) -> Text {
    match m.expr {
        Some(e) => e,
        None => "*"@,
    }
}

/// `function(expr) AS "column"`.
pub open spec fn aggregate(
    dialect: Dialect,
    function: Text,
    expr: Text,
    column: Text,
) -> Text {
    aliased(function + "("@ + expr + ")"@, dialect.quoted(column))
}

/// The select columns that a measure adds to those of the grouping.
pub open spec fn aggregates(dialect: Dialect, m: RollupMeasureModel) -> Seq<Text> {
    let expr = aggregated(m);
    match m.measure_type {
        MeasureType::Sum => seq![aggregate(dialect, "SUM"@, expr, m.name + "__sum"@)],
        MeasureType::Count => seq![aggregate(dialect, "COUNT"@, expr, m.name + "__count"@)],
        MeasureType::Average => seq![
            aggregate(dialect, "SUM"@, expr, m.name + "__sum"@),
            aggregate(dialect, "COUNT"@, expr, m.name + "__count"@),
        ],
        MeasureType::Min => seq![aggregate(dialect, "MIN"@, expr, m.name + "__min"@)],
        MeasureType::Max => seq![aggregate(dialect, "MAX"@, expr, m.name + "__max"@)],
        MeasureType::Median => seq![
            aggregate(dialect, "COUNT"@, "*"@, raw_column(m.name, m.expr) + "__freq"@),
        ],
        MeasureType::Number => seq![aliased(expr, dialect.quoted(m.name + "__value"@))],
        MeasureType::CountDistinct
        | MeasureType::CountDistinctApprox
        | MeasureType::Custom => seq![],
    }
}

/// The aggregates of all measures, in order.
pub open spec fn all_aggregates(dialect: Dialect, measures: Seq<RollupMeasureModel>) -> Seq<Text>
    decreases measures.len(),
{
    if measures.len() == 0 {
        seq![]
    } else {
        all_aggregates(dialect, measures.drop_last()) + aggregates(dialect, measures.last())
    }
}

/// The select list of a rollup's table.
pub open spec fn build_selects(view: ViewModel, rollup: RollupModel, dialect: Dialect) -> Seq<
    Text,
> {
    group_selects(group_columns(view, rollup, dialect)) + all_aggregates(dialect, rollup.measures)
}

/// The positions 1 to `n`, as they stand after `GROUP BY`.
pub open spec fn ordinals(n: nat) -> Seq<Text> {
    Seq::new(n, |i: int| decimal((i + 1) as nat))
}

/// The statement that drops the table of an earlier build of the same day.
pub open spec fn drop_statement(table: Text) -> Text {
    "DROP TABLE IF EXISTS "@ + table
}

/// The statement that builds a table from a select list.
pub open spec fn create_statement(
    dialect: Dialect,
    table: Text,
    selects: Seq<Text>,
    groups: Seq<GroupColumnModel>,
    source: Text,
) -> Text {
    let head = "CREATE TABLE "@ + table + match dialect {
        Dialect::ClickHouse => "\nENGINE = MergeTree()\nORDER BY ("@ + joined(
            group_aliases(groups),
            ", "@,
        ) + ")\nAS\nSELECT\n    "@,
        _ => " AS\nSELECT\n    "@,
    };
    head + joined(selects, ",\n    "@) + "\nFROM "@ + source + "\nGROUP BY "@ + joined(
        ordinals(groups.len()),
        ", "@,
    )
}

/// The statements that build a rollup's table.
pub open spec fn build_statements(
    view: ViewModel,
    rollup: RollupModel,
    schema: Text,
    date: Text,
    dialect: Dialect,
) -> Seq<Text> {
    let table = dialect.qualified(schema, table_name(view.name, rollup.hash, date));
    seq![
        drop_statement(table),
        create_statement(
            dialect,
            table,
            build_selects(view, rollup, dialect),
            group_columns(view, rollup, dialect),
            view.source(),
        ),
    ]
}

/// Writes `expr AS alias`.
pub fn write_aliased(expr: &str, alias: &str) -> (r: String)
    ensures
        r@ == aliased(expr@, alias@),
{
    enclose(expr, " AS ", alias)
}

/// Writes the name of a rollup's table.
pub fn write_table_name(view_name: &str, hash: &str, date: &str) -> (r: String)
    ensures
        r@ == table_name(view_name@, hash@, date@),
{
    let mut r = enclose(view_name, "__", hash);
    r.append("__");
    r.append(date);
    r
}

/// Writes the positions 1 to `n`, separated by commas.
pub fn write_ordinals(n: usize) -> (r: String)
    ensures
        r@ == joined(ordinals(n as nat), ", "@),
{
    let mut list: Vec<String> = Vec::new();
    let mut i: usize = 0;
    assert(list.deep_view() =~= ordinals(n as nat).take(0));
    while i < n
        invariant
            i <= n,
            list.deep_view() == ordinals(n as nat).take(i as int),
        decreases n - i,
    {
        i += 1;
        push_text(&mut list, to_decimal(i as u64));
        assert(list.deep_view() =~= ordinals(n as nat).take(i as int));
    }
    assert(list.deep_view() =~= ordinals(n as nat));
    join(&list, ", ")
}

fn push_group(columns: &mut Vec<GroupColumn>, column: GroupColumn)
    ensures
        final(columns).deep_view() == old(columns).deep_view().push(column.deep_view()),
{
    columns.push(column);
    assert(columns.deep_view() =~= old(columns).deep_view().push(column.deep_view()));
}

/// Adds the columns for the rollup's dimensions.
fn push_dimensions(
    columns: &mut Vec<GroupColumn>,
    view: &ViewDef,
    rollup: &RollupSpec,
    dialect: &Dialect,
)
    ensures
        final(columns).deep_view() == old(columns).deep_view()
            + rollup.deep_view().dimensions.filter_map(
            |name: Text| dimension_column(view.deep_view(), *dialect, name),
        ),
{
    let ghost start = columns.deep_view();
    let ghost names = rollup.deep_view().dimensions;
    let ghost f = |name: Text| dimension_column(view.deep_view(), *dialect, name);
    let mut i: usize = 0;
    assert(columns.deep_view() =~= start + names.take(0).filter_map(f));
    while i < rollup.dimensions.len()
        invariant
            i <= rollup.dimensions@.len(),
            names == rollup.dimensions.deep_view(),
            f == (|name: Text| dimension_column(view.deep_view(), *dialect, name)),
            columns.deep_view() == start + names.take(i as int).filter_map(f),
        decreases rollup.dimensions@.len() - i,
    {
        let name = rollup.dimensions[i].as_str();
        if let Some(dimension) = find_dimension(&view.dimensions, name) {
            let alias = dialect.quote_identifier(name);
            push_group(columns, GroupColumn { expr: dimension.expr.clone(), alias });
        }
        i += 1;
        assert(names.take(i as int).drop_last() =~= names.take(i - 1));
        assert(names.take(i as int).last() == name@);
        assert(columns.deep_view() =~= start + names.take(i as int).filter_map(f));
    }
    assert(names.take(i as int) =~= names);
}

/// Adds the column for the rollup's time dimension.
fn push_time(
    columns: &mut Vec<GroupColumn>,
    view: &ViewDef,
    rollup: &RollupSpec,
    dialect: &Dialect,
)
    ensures
        final(columns).deep_view() == old(columns).deep_view() + time_columns(
            view.deep_view(),
            rollup.deep_view(),
            *dialect,
        ),
{
    if let Some(name) = &rollup.time_dimension {
        if let Some(granularity) = &rollup.granularity {
            if let Some(dimension) = find_dimension(&view.dimensions, name.as_str()) {
                let expr = dialect.date_trunc(granularity.as_str(), dimension.expr.as_str());
                let column = enclose(name.as_str(), "__", granularity.as_str());
                let alias = dialect.quote_identifier(column.as_str());
                push_group(columns, GroupColumn { expr, alias });
            }
        }
    }
    assert(columns.deep_view() =~= old(columns).deep_view() + time_columns(
        view.deep_view(),
        rollup.deep_view(),
        *dialect,
    ));
}

/// The raw columns of the measures, each once.
fn collect_raw_columns(measures: &Vec<RollupMeasure>) -> (columns: Vec<String>)
    ensures
        columns.deep_view() == raw_columns(measures.deep_view()),
{
    let ghost all = measures.deep_view();
    let ghost f = |m: RollupMeasureModel| raw_values(m);
    let mut columns: Vec<String> = Vec::new();
    let mut i: usize = 0;
    assert(all.take(0).filter_map(f) =~= Seq::<Text>::empty());
    assert(columns.deep_view() =~= distinct(all.take(0).filter_map(f)));
    while i < measures.len()
        invariant
            i <= measures@.len(),
            all == measures.deep_view(),
            f == (|m: RollupMeasureModel| raw_values(m)),
            columns.deep_view() == distinct(all.take(i as int).filter_map(f)),
        decreases measures@.len() - i,
    {
        let m = &measures[i];
        let ghost before = all.take(i as int).filter_map(f);
        assert(all.take(i + 1).drop_last() =~= all.take(i as int));
        assert(all.take(i + 1).last() == m.deep_view());
        if m.measure_type.keeps_raw() {
            let column = raw_column_of(m.name.as_str(), &m.expr);
            let ghost after = before + seq![column@];
            assert(after.drop_last() =~= before);
            assert(after.last() == column@);
            if !contains_text(&columns, column.as_str()) {
                push_text(&mut columns, column);
            }
        }
        i += 1;
    }
    assert(all.take(i as int) =~= all);
    columns
}

/// Adds the raw columns of the rollup's measures.
fn push_raw(columns: &mut Vec<GroupColumn>, rollup: &RollupSpec, dialect: &Dialect)
    ensures
        final(columns).deep_view() == old(columns).deep_view() + raw_columns(
            rollup.deep_view().measures,
        ).map_values(|column: Text| raw_group(*dialect, column)),
{
    let ghost start = columns.deep_view();
    let raw = collect_raw_columns(&rollup.measures);
    let ghost groups = raw.deep_view().map_values(|column: Text| raw_group(*dialect, column));
    let mut i: usize = 0;
    assert(columns.deep_view() =~= start + groups.take(0));
    while i < raw.len()
        invariant
            i <= raw@.len(),
            groups == raw.deep_view().map_values(|column: Text| raw_group(*dialect, column)),
            columns.deep_view() == start + groups.take(i as int),
        decreases raw@.len() - i,
    {
        let alias = dialect.quote_identifier(raw[i].as_str());
        push_group(columns, GroupColumn { expr: raw[i].clone(), alias });
        i += 1;
        assert(columns.deep_view() =~= start + groups.take(i as int));
    }
    assert(groups.take(i as int) =~= groups);
}

/// Determines what a rollup groups by.
pub fn build_group_columns(view: &ViewDef, rollup: &RollupSpec, dialect: &Dialect) -> (columns: Vec<
    GroupColumn,
>)
    ensures
        columns.deep_view() == group_columns(view.deep_view(), rollup.deep_view(), *dialect),
{
    let mut columns: Vec<GroupColumn> = Vec::new();
    assert(columns.deep_view() =~= Seq::<GroupColumnModel>::empty());
    push_dimensions(&mut columns, view, rollup, dialect);
    push_time(&mut columns, view, rollup, dialect);
    push_raw(&mut columns, rollup, dialect);
    assert(columns.deep_view() =~= group_columns(view.deep_view(), rollup.deep_view(), *dialect));
    columns
}

fn write_aggregate(dialect: &Dialect, function: &str, expr: &str, column: &str) -> (r: String)
    ensures
        r@ == aggregate(*dialect, function@, expr@, column@),
{
    let mut call = enclose(function, "(", expr);
    call.append(")");
    write_aliased(call.as_str(), dialect.quote_identifier(column).as_str())
}

/// Adds the select columns of one measure.
fn push_aggregates(selects: &mut Vec<String>, m: &RollupMeasure, dialect: &Dialect)
    ensures
        final(selects).deep_view() == old(selects).deep_view() + aggregates(
            *dialect,
            m.deep_view(),
        ),
{
    let name = m.name.as_str();
    let expr = match &m.expr {
        Some(e) => e.clone(),
        None => "*".to_string(),
    };
    match m.measure_type {
        MeasureType::Sum => {
            let column = suffixed(name, "__sum");
            push_text(selects, write_aggregate(dialect, "SUM", expr.as_str(), column.as_str()));
        },
        MeasureType::Count => {
            let column = suffixed(name, "__count");
            push_text(selects, write_aggregate(dialect, "COUNT", expr.as_str(), column.as_str()));
        },
        MeasureType::Average => {
            let sum = suffixed(name, "__sum");
            let count = suffixed(name, "__count");
            push_text(selects, write_aggregate(dialect, "SUM", expr.as_str(), sum.as_str()));
            push_text(selects, write_aggregate(dialect, "COUNT", expr.as_str(), count.as_str()));
        },
        MeasureType::Min => {
            let column = suffixed(name, "__min");
            push_text(selects, write_aggregate(dialect, "MIN", expr.as_str(), column.as_str()));
        },
        MeasureType::Max => {
            let column = suffixed(name, "__max");
            push_text(selects, write_aggregate(dialect, "MAX", expr.as_str(), column.as_str()));
        },
        MeasureType::Median => {
            let raw = raw_column_of(name, &m.expr);
            let column = suffixed(raw.as_str(), "__freq");
            push_text(selects, write_aggregate(dialect, "COUNT", "*", column.as_str()));
        },
        MeasureType::Number => {
            let column = suffixed(name, "__value");
            let alias = dialect.quote_identifier(column.as_str());
            push_text(selects, write_aliased(expr.as_str(), alias.as_str()));
        },
        // The raw column of the grouping is all that these need.
        MeasureType::CountDistinct | MeasureType::CountDistinctApprox => {},
        MeasureType::Custom => {},
    }
    assert(selects.deep_view() =~= old(selects).deep_view() + aggregates(*dialect, m.deep_view()));
}

/// The select list of a rollup's table, its group columns first.
fn write_selects(groups: &Vec<GroupColumn>, rollup: &RollupSpec, dialect: &Dialect) -> (selects:
    Vec<String>)
    ensures
        selects.deep_view() == group_selects(groups.deep_view()) + all_aggregates(
            *dialect,
            rollup.deep_view().measures,
        ),
{
    let ghost heads = group_selects(groups.deep_view());
    let ghost measures = rollup.deep_view().measures;
    let mut selects: Vec<String> = Vec::new();
    let mut i: usize = 0;
    assert(selects.deep_view() =~= heads.take(0));
    while i < groups.len()
        invariant
            i <= groups@.len(),
            heads == group_selects(groups.deep_view()),
            selects.deep_view() == heads.take(i as int),
        decreases groups@.len() - i,
    {
        push_text(
            &mut selects,
            write_aliased(groups[i].expr.as_str(), groups[i].alias.as_str()),
        );
        i += 1;
        assert(selects.deep_view() =~= heads.take(i as int));
    }
    let mut k: usize = 0;
    assert(selects.deep_view() =~= heads + all_aggregates(*dialect, measures.take(0)));
    while k < rollup.measures.len()
        invariant
            k <= rollup.measures@.len(),
            measures == rollup.measures.deep_view(),
            selects.deep_view() == heads + all_aggregates(*dialect, measures.take(k as int)),
        decreases rollup.measures@.len() - k,
    {
        push_aggregates(&mut selects, &rollup.measures[k], dialect);
        k += 1;
        assert(measures.take(k as int).drop_last() =~= measures.take(k - 1));
        assert(measures.take(k as int).last() == measures[k - 1]);
        assert(selects.deep_view() =~= heads + all_aggregates(*dialect, measures.take(k as int)));
    }
    assert(measures.take(k as int) =~= measures);
    selects
}

/// The aliases of the group columns, in order.
fn aliases_of(groups: &Vec<GroupColumn>) -> (aliases: Vec<String>)
    ensures
        aliases.deep_view() == group_aliases(groups.deep_view()),
{
    let ghost all = group_aliases(groups.deep_view());
    let mut aliases: Vec<String> = Vec::new();
    let mut i: usize = 0;
    assert(aliases.deep_view() =~= all.take(0));
    while i < groups.len()
        invariant
            i <= groups@.len(),
            all == group_aliases(groups.deep_view()),
            aliases.deep_view() == all.take(i as int),
        decreases groups@.len() - i,
    {
        push_text(&mut aliases, groups[i].alias.clone());
        i += 1;
        assert(aliases.deep_view() =~= all.take(i as int));
    }
    assert(aliases.deep_view() =~= all);
    aliases
}

/// Generates the statements that build a rollup's table: the drop of an earlier
/// build of the same day, and the creation.
pub fn generate_build_sql(
    view: &ViewDef,
    rollup: &RollupSpec,
    schema: &str,
    date_str: &str,
    dialect: &Dialect,
) -> (statements: Vec<String>)
    ensures
        statements.deep_view() == build_statements(
            view.deep_view(),
            rollup.deep_view(),
            schema@,
            date_str@,
            *dialect,
        ),
{
    let name = write_table_name(view.name.as_str(), rollup.hash.as_str(), date_str);
    let table = dialect.qualify_table(schema, name.as_str());
    let groups = build_group_columns(view, rollup, dialect);
    let selects = write_selects(&groups, rollup, dialect);

    let mut create = suffixed("CREATE TABLE ", table.as_str());
    match dialect {
        Dialect::ClickHouse => {
            // Sorting keys are column names: positions are not understood there.
            let aliases = aliases_of(&groups);
            let engine = enclose(
                "\nENGINE = MergeTree()\nORDER BY (",
                join(&aliases, ", ").as_str(),
                ")\nAS\nSELECT\n    ",
            );
            create.append(engine.as_str());
        },
        _ => {
            create.append(" AS\nSELECT\n    ");
        },
    }
    create.append(join(&selects, ",\n    ").as_str());
    create.append("\nFROM ");
    create.append(view.source_sql().as_str());
    create.append("\nGROUP BY ");
    create.append(write_ordinals(groups.len()).as_str());

    let drop = suffixed("DROP TABLE IF EXISTS ", table.as_str());
    let mut statements: Vec<String> = Vec::new();
    push_text(&mut statements, drop);
    push_text(&mut statements, create);
    assert(statements.deep_view() =~= build_statements(
        view.deep_view(),
        rollup.deep_view(),
        schema@,
        date_str@,
        *dialect,
    ));
    statements
}

} // verus!
