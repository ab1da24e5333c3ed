//! The SQL that answers a query from a rollup.

use vstd::prelude::*;

use crate::build_sql::{
    aliased, group_selects, ordinals, time_column, write_aliased, write_ordinals, GroupColumn,
    GroupColumnModel,
};
use crate::coverage::{find_measure_meta, measure_meta, meta_type, meta_type_of};
use crate::dialect::Dialect;
use crate::filter_sql::{build_reagg_where_clause, escape, escaped, where_clause};
use crate::json::{Json, JsonModel};
use crate::manifest::{EntryModel, LocalRollupEntry};
use crate::query::{QueryRequest, RequestModel, TimeDimensionModel};
use crate::schema::MeasureType;
use crate::text::{
    decimal, enclose, join, joined, member_name, name_of_member, push_text, replace_char, replaced,
    same_text, suffixed, to_decimal, Text,
};

verus! {

/// Where a rollup is read: from a file of the local cache, or from its table in
/// the warehouse.
#[derive(Clone, Copy, Debug, PartialEq, Eq, Structural)]
pub enum Tier {
    Local,
    Warehouse,
}

/// The alias of a member in the result: its reference with `__` for the dots.
pub open spec fn flat_name(member: Text) -> Text {
    replaced(member, '.', "__"@)
}

/// The column for a requested dimension.
pub open spec fn reagg_dimension(dialect: Dialect, dimension: Text) -> GroupColumnModel {
    GroupColumnModel {
        expr: dialect.quoted(member_name(dimension)),
        alias: dialect.quoted(flat_name(dimension)),
    }
}

/// The column for a requested time dimension: the stored column where it has
/// the wanted granularity or none is wanted, else the stored column cut down. A
/// granularity cannot be had from a rollup that has none.
pub open spec fn reagg_time_expr(
    dialect: Dialect,
    name: Text,
    requested: Option<Text>,
    stored: Option<Text>,
) -> Option<Text> {
    match (requested, stored) {
        (Some(wanted), Some(held)) => Some(
            if wanted == held {
                dialect.quoted(time_column(name, held))
            } else {
                dialect.truncated(wanted, dialect.quoted(time_column(name, held)))
            },
        ),
        (Some(_), None) => None,
        (None, Some(held)) => Some(dialect.quoted(time_column(name, held))),
        (None, None) => Some(dialect.quoted(name)),
    }
}

/// The column for a requested time dimension, with its alias.
pub open spec fn reagg_time(
    entry: EntryModel,
    dialect: Dialect,
    td: TimeDimensionModel,
) -> Option<GroupColumnModel> {
    match reagg_time_expr(dialect, member_name(td.dimension), td.granularity, entry.granularity) {
        Some(expr) => Some(
            GroupColumnModel { expr, alias: dialect.quoted(flat_name(td.dimension)) },
        ),
        None => None,
    }
}

/// What the query groups by: its dimensions and time dimensions.
pub open spec fn reagg_groups(
    request: RequestModel,
    entry: EntryModel,
    dialect: Dialect,
) -> Seq<GroupColumnModel> {
    request.dimensions.map_values(|dimension: Text| reagg_dimension(dialect, dimension))
        + request.time_dimensions.filter_map(
        |td: TimeDimensionModel| reagg_time(entry, dialect, td),
    )
}

/// The stored column at `index`, or `default` where the manifest lists fewer.
pub open spec fn column_or(columns: Seq<Text>, index: int, default: Text) -> Text {
    if index < columns.len() {
        columns[index]
    } else {
        default
    }
}

/// The columns of a measure, as the manifest lists them.
pub open spec fn meta_columns(meta: JsonModel) -> Seq<Text> {
    meta.field_texts("columns"@)
}

/// The aggregate that gets a measure back from its stored columns.
pub open spec fn reaggregate(
    dialect: Dialect,
    tier: Tier,
    measure_type: MeasureType,
    columns: Seq<Text>,
    name: Text,
) -> Option<Text> {
    match measure_type {
        MeasureType::Sum => Some(
            "SUM("@ + dialect.quoted(column_or(columns, 0, name + "__sum"@)) + ")"@,
        ),
        MeasureType::Count => Some(
            "SUM("@ + dialect.quoted(column_or(columns, 0, name + "__count"@)) + ")"@,
        ),
        MeasureType::Average => Some(
            dialect.as_double(
                "SUM("@ + dialect.quoted(column_or(columns, 0, name + "__sum"@)) + ")"@,
            ) + " / NULLIF(SUM("@ + dialect.quoted(column_or(columns, 1, name + "__count"@))
                + "), 0)"@,
        ),
        MeasureType::Min => Some(
            "MIN("@ + dialect.quoted(column_or(columns, 0, name + "__min"@)) + ")"@,
        ),
        MeasureType::Max => Some(
            "MAX("@ + dialect.quoted(column_or(columns, 0, name + "__max"@)) + ")"@,
        ),
        MeasureType::CountDistinct | MeasureType::CountDistinctApprox => Some(
            "COUNT(DISTINCT "@ + dialect.quoted(column_or(columns, 0, name)) + ")"@,
        ),
        MeasureType::Median => match tier {
            Tier::Local => Some("MEDIAN("@ + dialect.quoted(column_or(columns, 0, name)) + ")"@),
            Tier::Warehouse => None,
        },
        MeasureType::Number => match tier {
            Tier::Local => Some(dialect.quoted(column_or(columns, 0, name + "__value"@))),
            Tier::Warehouse => None,
        },
        MeasureType::Custom => None,
    }
}

/// The aggregate for what the manifest says of a measure; `NULL` where there is
/// none.
pub open spec fn meta_aggregate(
    dialect: Dialect,
    tier: Tier,
    meta: JsonModel,
    name: Text,
) -> Text {
    match meta_type(meta) {
        Some(measure_type) => match reaggregate(
            dialect,
            tier,
            measure_type,
            meta_columns(meta),
            name,
        ) {
            Some(sql) => sql,
            None => "NULL"@,
        },
        None => "NULL"@,
    }
}

/// The select column for a requested measure. One that the rollup does not have
/// gives none.
pub open spec fn reagg_measure(
    entry: EntryModel,
    dialect: Dialect,
    tier: Tier,
    measure: Text,
) -> Option<Text> {
    match measure_meta(entry.measures, member_name(measure)) {
        Some(meta) => Some(
            aliased(
                meta_aggregate(dialect, tier, meta, member_name(measure)),
                dialect.quoted(flat_name(measure)),
            ),
        ),
        None => None,
    }
}

/// The select list of the query.
pub open spec fn reagg_selects(
    request: RequestModel,
    entry: EntryModel,
    dialect: Dialect,
    tier: Tier,
) -> Seq<Text> {
    group_selects(reagg_groups(request, entry, dialect)) + request.measures.filter_map(
        |measure: Text| reagg_measure(entry, dialect, tier, measure),
    )
}

/// The expressions of the group columns.
pub open spec fn group_exprs(columns: Seq<GroupColumnModel>) -> Seq<Text> {
    columns.map_values(|c: GroupColumnModel| c.expr)
}

/// The `GROUP BY` clause: by expression in the local cache, by position in the
/// warehouse, and nothing where there are no group columns.
pub open spec fn group_clause(columns: Seq<GroupColumnModel>, tier: Tier) -> Text {
    if columns.len() == 0 {
        Seq::empty()
    } else {
        "\nGROUP BY "@ + match tier {
            Tier::Local => joined(group_exprs(columns), ", "@),
            Tier::Warehouse => joined(ordinals(columns.len()), ", "@),
        }
    }
}

/// A clause with a number, such as `LIMIT`; nothing where there is no number.
pub open spec fn number_clause(keyword: Text, number: Option<u64>) -> Text {
    match number {
        Some(n) => keyword + decimal(n as nat),
        None => Seq::empty(),
    }
}

/// The query on a rollup that is read from `source`.
pub open spec fn reagg_query(
    request: RequestModel,
    entry: EntryModel,
    source: Text,
    dialect: Dialect,
    tier: Tier,
) -> Text {
    "SELECT "@ + joined(reagg_selects(request, entry, dialect, tier), ", "@) + "\nFROM "@ + source
        + where_clause(request, entry, dialect) + group_clause(
        reagg_groups(request, entry, dialect),
        tier,
    ) + number_clause("\nLIMIT "@, request.limit) + number_clause("\nOFFSET "@, request.offset)
}

/// A Parquet file as a source.
pub open spec fn parquet_source(path: Text) -> Text {
    "read_parquet('"@ + escaped(path) + "')"@
}

fn write_flat_name(member: &str) -> (r: String)
    ensures
        r@ == flat_name(member@),
{
    replace_char(member, '.', "__")
}

fn write_time_expr(
    dialect: &Dialect,
    name: &str,
    requested: &Option<String>,
    stored: &Option<String>,
) -> (r: Option<String>)
    ensures
        r.deep_view() == reagg_time_expr(
            *dialect,
            name@,
            requested.deep_view(),
            stored.deep_view(),
        ),
{
    match (requested, stored) {
        (Some(wanted), Some(held)) => {
            let column = enclose(name, "__", held.as_str());
            let quoted = dialect.quote_identifier(column.as_str());
            if same_text(wanted.as_str(), held.as_str()) {
                Some(quoted)
            } else {
                Some(dialect.date_trunc(wanted.as_str(), quoted.as_str()))
            }
        },
        (Some(_), None) => None,
        (None, Some(held)) => {
            let column = enclose(name, "__", held.as_str());
            Some(dialect.quote_identifier(column.as_str()))
        },
        (None, None) => Some(dialect.quote_identifier(name)),
    }
}

/// Determines what a query on a rollup groups by.
fn write_groups(request: &QueryRequest, entry: &LocalRollupEntry, dialect: &Dialect) -> (groups:
    Vec<GroupColumn>)
    ensures
        groups.deep_view() == reagg_groups(request.deep_view(), entry.deep_view(), *dialect),
{
    let ghost q = request.deep_view();
    let ghost dims = q.dimensions.map_values(
        |dimension: Text| reagg_dimension(*dialect, dimension),
    );
    let ghost f = |td: TimeDimensionModel| reagg_time(entry.deep_view(), *dialect, td);
    let mut groups: Vec<GroupColumn> = Vec::new();
    let mut i: usize = 0;
    assert(groups.deep_view() =~= dims.take(0));
    while i < request.dimensions.len()
        invariant
            i <= request.dimensions@.len(),
            dims == request.deep_view().dimensions.map_values(
                |dimension: Text| reagg_dimension(*dialect, dimension),
            ),
            groups.deep_view() == dims.take(i as int),
        decreases request.dimensions@.len() - i,
    {
        let dimension = request.dimensions[i].as_str();
        let ghost before = groups.deep_view();
        let group = GroupColumn {
            expr: dialect.quote_identifier(name_of_member(dimension).as_str()),
            alias: dialect.quote_identifier(write_flat_name(dimension).as_str()),
        };
        groups.push(group);
        i += 1;
        assert(groups.deep_view() =~= before.push(group.deep_view()));
        assert(groups.deep_view() =~= dims.take(i as int));
    }
    let mut k: usize = 0;
    assert(groups.deep_view() =~= dims + q.time_dimensions.take(0).filter_map(f));
    while k < request.time_dimensions.len()
        invariant
            k <= request.time_dimensions@.len(),
            q == request.deep_view(),
            f == (|td: TimeDimensionModel| reagg_time(entry.deep_view(), *dialect, td)),
            groups.deep_view() == dims + q.time_dimensions.take(k as int).filter_map(f),
        decreases request.time_dimensions@.len() - k,
    {
        let td = &request.time_dimensions[k];
        let name = name_of_member(td.dimension.as_str());
        let ghost before = groups.deep_view();
        if let Some(expr) = write_time_expr(
            dialect,
            name.as_str(),
            &td.granularity,
            &entry.granularity,
        ) {
            let group = GroupColumn {
                expr,
                alias: dialect.quote_identifier(write_flat_name(td.dimension.as_str()).as_str()),
            };
            groups.push(group);
            assert(groups.deep_view() =~= before.push(group.deep_view()));
        }
        k += 1;
        assert(q.time_dimensions.take(k as int).drop_last() =~= q.time_dimensions.take(k - 1));
        assert(q.time_dimensions.take(k as int).last() == td.deep_view());
        assert(groups.deep_view() =~= dims + q.time_dimensions.take(k as int).filter_map(f));
    }
    assert(q.time_dimensions.take(k as int) =~= q.time_dimensions);
    groups
}

fn pick_column(columns: &Vec<String>, index: usize, name: &str, suffix: &str) -> (r: String)
    ensures
        r@ == column_or(columns.deep_view(), index as int, name@ + suffix@),
{
    if index < columns.len() {
        columns[index].clone()
    } else {
        suffixed(name, suffix)
    }
}

fn write_call_on(function: &str, dialect: &Dialect, column: &str) -> (r: String)
    ensures
        r@ == function@ + dialect.quoted(column@) + ")"@,
{
    enclose(function, dialect.quote_identifier(column).as_str(), ")")
}

fn write_reaggregate(
    dialect: &Dialect,
    tier: Tier,
    measure_type: MeasureType,
    columns: &Vec<String>,
    name: &str,
) -> (r: Option<String>)
    ensures
        r.deep_view() == reaggregate(*dialect, tier, measure_type, columns.deep_view(), name@),
{
    match measure_type {
        MeasureType::Sum => {
            let column = pick_column(columns, 0, name, "__sum");
            Some(write_call_on("SUM(", dialect, column.as_str()))
        },
        MeasureType::Count => {
            let column = pick_column(columns, 0, name, "__count");
            Some(write_call_on("SUM(", dialect, column.as_str()))
        },
        MeasureType::Average => {
            let sum = pick_column(columns, 0, name, "__sum");
            let count = pick_column(columns, 1, name, "__count");
            let total = write_call_on("SUM(", dialect, sum.as_str());
            let mut r = dialect.cast_to_double(total.as_str());
            r.append(" / NULLIF(SUM(");
            r.append(dialect.quote_identifier(count.as_str()).as_str());
            r.append("), 0)");
            Some(r)
        },
        MeasureType::Min => {
            let column = pick_column(columns, 0, name, "__min");
            Some(write_call_on("MIN(", dialect, column.as_str()))
        },
        MeasureType::Max => {
            let column = pick_column(columns, 0, name, "__max");
            Some(write_call_on("MAX(", dialect, column.as_str()))
        },
        MeasureType::CountDistinct | MeasureType::CountDistinctApprox => {
            let column = pick_raw_column(columns, name);
            Some(write_call_on("COUNT(DISTINCT ", dialect, column.as_str()))
        },
        MeasureType::Median => match tier {
            Tier::Local => {
                let column = pick_raw_column(columns, name);
                Some(write_call_on("MEDIAN(", dialect, column.as_str()))
            },
            Tier::Warehouse => None,
        },
        MeasureType::Number => match tier {
            Tier::Local => {
                let column = pick_column(columns, 0, name, "__value");
                Some(dialect.quote_identifier(column.as_str()))
            },
            Tier::Warehouse => None,
        },
        MeasureType::Custom => None,
    }
}

fn pick_raw_column(columns: &Vec<String>, name: &str) -> (r: String)
    ensures
        r@ == column_or(columns.deep_view(), 0, name@),
{
    if columns.len() > 0 {
        columns[0].clone()
    } else {
        name.to_string()
    }
}

fn write_meta_aggregate(dialect: &Dialect, tier: Tier, meta: &Json, name: &str) -> (r: String)
    ensures
        r@ == meta_aggregate(*dialect, tier, meta.deep_view(), name@),
{
    if let Some(measure_type) = meta_type_of(meta) {
        let columns = meta.get_strings("columns");
        if let Some(sql) = write_reaggregate(dialect, tier, measure_type, &columns, name) {
            return sql;
        }
    }
    "NULL".to_string()
}

/// The select list of a query on a rollup, its group columns first.
fn write_reagg_selects(
    request: &QueryRequest,
    entry: &LocalRollupEntry,
    dialect: &Dialect,
    tier: Tier,
    groups: &Vec<GroupColumn>,
) -> (selects: Vec<String>)
    requires
        groups.deep_view() == reagg_groups(request.deep_view(), entry.deep_view(), *dialect),
    ensures
        selects.deep_view() == reagg_selects(
            request.deep_view(),
            entry.deep_view(),
            *dialect,
            tier,
        ),
{
    let ghost heads = group_selects(groups.deep_view());
    let ghost wanted = request.deep_view().measures;
    let ghost f = |measure: Text| reagg_measure(entry.deep_view(), *dialect, tier, measure);
    let mut selects: Vec<String> = Vec::new();
    let mut i: usize = 0;
    assert(selects.deep_view() =~= heads.take(0));
    while i < groups.len()
        invariant
            i <= groups@.len(),
            heads == group_selects(groups.deep_view()),
            selects.deep_view() == heads.take(i as int),
        decreases groups@.len() - i,
    {
        push_text(
            &mut selects,
            write_aliased(groups[i].expr.as_str(), groups[i].alias.as_str()),
        );
        i += 1;
        assert(selects.deep_view() =~= heads.take(i as int));
    }
    let mut k: usize = 0;
    assert(selects.deep_view() =~= heads + wanted.take(0).filter_map(f));
    while k < request.measures.len()
        invariant
            k <= request.measures@.len(),
            wanted == request.measures.deep_view(),
            f == (|measure: Text| reagg_measure(entry.deep_view(), *dialect, tier, measure)),
            selects.deep_view() == heads + wanted.take(k as int).filter_map(f),
        decreases request.measures@.len() - k,
    {
        let measure = request.measures[k].as_str();
        let name = name_of_member(measure);
        if let Some(meta) = find_measure_meta(&entry.measures, name.as_str()) {
            let sql = write_meta_aggregate(dialect, tier, meta, name.as_str());
            let alias = dialect.quote_identifier(write_flat_name(measure).as_str());
            push_text(&mut selects, write_aliased(sql.as_str(), alias.as_str()));
        }
        k += 1;
        assert(wanted.take(k as int).drop_last() =~= wanted.take(k - 1));
        assert(wanted.take(k as int).last() == measure@);
        assert(selects.deep_view() =~= heads + wanted.take(k as int).filter_map(f));
    }
    assert(wanted.take(k as int) =~= wanted);
    selects
}

/// The expressions of the group columns, in order.
fn exprs_of(groups: &Vec<GroupColumn>) -> (exprs: Vec<String>)
    ensures
        exprs.deep_view() == group_exprs(groups.deep_view()),
{
    let ghost all = group_exprs(groups.deep_view());
    let mut exprs: Vec<String> = Vec::new();
    let mut i: usize = 0;
    assert(exprs.deep_view() =~= all.take(0));
    while i < groups.len()
        invariant
            i <= groups@.len(),
            all == group_exprs(groups.deep_view()),
            exprs.deep_view() == all.take(i as int),
        decreases groups@.len() - i,
    {
        push_text(&mut exprs, groups[i].expr.clone());
        i += 1;
        assert(exprs.deep_view() =~= all.take(i as int));
    }
    assert(exprs.deep_view() =~= all);
    exprs
}

fn write_group_clause(groups: &Vec<GroupColumn>, tier: Tier) -> (r: String)
    ensures
        r@ == group_clause(groups.deep_view(), tier),
{
    if groups.len() == 0 {
        return String::new();
    }
    match tier {
        Tier::Local => suffixed("\nGROUP BY ", join(&exprs_of(groups), ", ").as_str()),
        Tier::Warehouse => suffixed("\nGROUP BY ", write_ordinals(groups.len()).as_str()),
    }
}

fn write_number_clause(keyword: &str, number: Option<u64>) -> (r: String)
    ensures
        r@ == number_clause(keyword@, number),
{
    match number {
        Some(n) => suffixed(keyword, to_decimal(n).as_str()),
        None => String::new(),
    }
}

fn write_reagg_query(
    request: &QueryRequest,
    entry: &LocalRollupEntry,
    source: &str,
    dialect: &Dialect,
    tier: Tier,
) -> (r: String)
    ensures
        r@ == reagg_query(request.deep_view(), entry.deep_view(), source@, *dialect, tier),
{
    let groups = write_groups(request, entry, dialect);
    let selects = write_reagg_selects(request, entry, dialect, tier, &groups);
    let mut r = suffixed("SELECT ", join(&selects, ", ").as_str());
    r.append("\nFROM ");
    r.append(source);
    r.append(build_reagg_where_clause(request, entry, dialect).as_str());
    r.append(write_group_clause(&groups, tier).as_str());
    r.append(write_number_clause("\nLIMIT ", request.limit).as_str());
    r.append(write_number_clause("\nOFFSET ", request.offset).as_str());
    r
}

/// Generates the DuckDB query that answers a request from a Parquet file of the
/// local cache.
pub fn generate_reagg_sql(
    request: &QueryRequest,
    entry: &LocalRollupEntry,
    parquet_path: &str,
) -> (r: String)
    ensures
        r@ == reagg_query(
            request.deep_view(),
            entry.deep_view(),
            parquet_source(parquet_path@),
            Dialect::DuckDB,
            Tier::Local,
        ),
{
    let source = enclose("read_parquet('", escape(parquet_path).as_str(), "')");
    write_reagg_query(request, entry, source.as_str(), &Dialect::DuckDB, Tier::Local)
}

/// Generates the query that answers a request from a rollup's table in the
/// warehouse.
pub fn generate_warehouse_reagg_sql(
    request: &QueryRequest,
    entry: &LocalRollupEntry,
    table_name: &str,
    dialect: &Dialect,
) -> (r: String)
    ensures
        r@ == reagg_query(
            request.deep_view(),
            entry.deep_view(),
            table_name@,
            *dialect,
            Tier::Warehouse,
        ),
{
    write_reagg_query(request, entry, table_name, dialect, Tier::Warehouse)
}

} // verus!
