//! Exact texts: hashes, statements, clauses and records.

use preagg::build_sql::{generate_build_sql, write_ordinals};
use preagg::coverage::is_coarser_or_equal;
use preagg::dialect::Dialect;
use preagg::filter_sql::{build_reagg_where_clause, render_filter_sql};
use preagg::hash::compute_rollup_hash;
use preagg::json::{texts_to_json, Json};
use preagg::manifest::{
    build_manifest_entry, generate_manifest_create_sql, generate_manifest_upsert_sql,
    manifest_entry_with, manifest_upsert_statements, LocalManifest, LocalRollupEntry,
    ManifestEntry,
};
use preagg::order::sort_texts;
use preagg::query::{
    collect_filter_members, FilterOperator, QueryFilter, QueryRequest, TimeDimensionQuery,
};
use preagg::reagg_sql::{generate_reagg_sql, generate_warehouse_reagg_sql};
use preagg::rollup::{build_rollup_measure, resolve_rollups, RollupSpec};
use preagg::schema::{
    Dimension, DimensionType, Measure, MeasureType, PreAggregation, ViewDef,
};
use preagg::text::{name_of_member, to_decimal, to_upper, view_of_member};

fn texts(list: &[&str]) -> Vec<String> {
    list.iter().map(|t| t.to_string()).collect()
}

fn dimension(name: &str, dimension_type: DimensionType, expr: &str) -> Dimension {
    Dimension {
        name: name.to_string(),
        dimension_type,
        expr: expr.to_string(),
    }
}

fn measure(name: &str, measure_type: MeasureType, expr: Option<&str>) -> Measure {
    Measure {
        name: name.to_string(),
        measure_type,
        expr: expr.map(|e| e.to_string()),
    }
}

/// A view with a measure of every type and one rollup with all of them.
fn full_view() -> ViewDef {
    ViewDef {
        name: "orders".to_string(),
        table: Some("shop.orders".to_string()),
        sql: None,
        dimensions: vec![
            dimension("region", DimensionType::String, "o.region"),
            dimension("created_at", DimensionType::Datetime, "o.created_at"),
            dimension("shipped_on", DimensionType::Date, "o.shipped_on"),
        ],
        measures: Some(vec![
            measure("revenue", MeasureType::Sum, Some("amount")),
            measure("orders", MeasureType::Count, None),
            measure("avg_price", MeasureType::Average, Some("price")),
            measure("low", MeasureType::Min, Some("price")),
            measure("high", MeasureType::Max, Some("price")),
            measure("users", MeasureType::CountDistinct, Some("user_id")),
            measure("visitors", MeasureType::CountDistinctApprox, Some("user_id")),
            measure("mid", MeasureType::Median, Some("amount")),
            measure("ratio", MeasureType::Number, Some("a / b")),
            measure("special", MeasureType::Custom, Some("f(x)")),
        ]),
        pre_aggregations: Some(vec![PreAggregation {
            name: "all".to_string(),
            dimensions: texts(&["region", "unknown"]),
            measures: texts(&[
                "revenue", "orders", "avg_price", "low", "high", "users", "visitors", "mid",
                "ratio", "special", "missing",
            ]),
            time_dimension: Some("created_at".to_string()),
            granularity: Some("month".to_string()),
        }]),
    }
}

fn recorded(name: &str, measure_type: &str, columns: &[&str]) -> Json {
    Json::Object(vec![
        ("name".to_string(), Json::Str(name.to_string())),
        ("type".to_string(), Json::Str(measure_type.to_string())),
        (
            "columns".to_string(),
            Json::Array(columns.iter().map(|c| Json::Str(c.to_string())).collect()),
        ),
    ])
}

fn entry() -> LocalRollupEntry {
    LocalRollupEntry {
        view_name: "orders".to_string(),
        rollup_name: "all".to_string(),
        rollup_hash: "a1b2c3d4".to_string(),
        file: "orders__a1b2c3d4.parquet".to_string(),
        dimensions: texts(&["region", "status"]),
        measures: vec![
            recorded("revenue", "sum", &["revenue__sum"]),
            recorded("bare_sum", "sum", &[]),
            recorded("bare_avg", "average", &["s"]),
            recorded("bare_users", "count_distinct_approx", &[]),
            recorded("mid", "median", &["amount", "amount__freq"]),
            recorded("ratio", "number", &[]),
            recorded("special", "custom", &[]),
            recorded("odd", "harmonic_mean", &["odd__h"]),
            Json::Object(vec![(
                "name".to_string(),
                Json::Str("untyped".to_string()),
            )]),
        ],
        time_dimension: Some("created_at".to_string()),
        granularity: Some("month".to_string()),
        build_date: "2026-04-15".to_string(),
    }
}

fn filter(member: &str, operator: FilterOperator, values: &[&str]) -> QueryFilter {
    QueryFilter {
        member: Some(member.to_string()),
        operator: Some(operator),
        values: texts(values),
        and: None,
        or: None,
    }
}

fn all_of(parts: Vec<QueryFilter>) -> QueryFilter {
    QueryFilter {
        member: None,
        operator: None,
        values: vec![],
        and: Some(parts),
        or: None,
    }
}

fn any_of(parts: Vec<QueryFilter>) -> QueryFilter {
    QueryFilter {
        member: None,
        operator: None,
        values: vec![],
        and: None,
        or: Some(parts),
    }
}

fn rendered(f: &QueryFilter) -> Option<String> {
    render_filter_sql(f, &entry(), &Dialect::DuckDB)
}

#[test]
fn hash_is_fnv_of_the_canonical_form() {
    assert_eq!(
        compute_rollup_hash(
            &texts(&["region", "status"]),
            &texts(&["revenue"]),
            Some("created_at"),
            Some("month"),
        ),
        "a74e67fb"
    );
    assert_eq!(compute_rollup_hash(&[], &[], None, None), "59502193");
    assert_eq!(
        compute_rollup_hash(&texts(&["größe"]), &texts(&["a"]), None, Some("day")),
        "bde29874"
    );
}

#[test]
fn texts_sort_by_bytes() {
    assert_eq!(
        sort_texts(&texts(&["b", "a", "é", "Z", "", "ab", "a"])),
        texts(&["", "Z", "a", "a", "ab", "b", "é"])
    );
}

#[test]
fn every_type_stores_its_columns() {
    let view = full_view();
    let columns: Vec<Vec<String>> = view
        .measures
        .as_ref()
        .unwrap()
        .iter()
        .map(|m| build_rollup_measure(m).columns)
        .collect();
    assert_eq!(
        columns,
        vec![
            texts(&["revenue__sum"]),
            texts(&["orders__count"]),
            texts(&["avg_price__sum", "avg_price__count"]),
            texts(&["low__min"]),
            texts(&["high__max"]),
            texts(&["user_id"]),
            texts(&["user_id"]),
            texts(&["amount", "amount__freq"]),
            texts(&["ratio__value"]),
            texts(&[]),
        ]
    );
    let bare = build_rollup_measure(&measure("mid", MeasureType::Median, None));
    assert_eq!(bare.columns, texts(&["mid", "mid__freq"]));
    assert_eq!(bare.name, "mid");
    assert_eq!(bare.measure_type, MeasureType::Median);
    assert_eq!(bare.expr, None);
}

#[test]
fn explicit_rollup_passes_over_unknown_measures() {
    let rollups = resolve_rollups(&full_view());
    assert_eq!(rollups.len(), 1);
    assert_eq!(rollups[0].measures.len(), 10);
    assert_eq!(rollups[0].dimensions, texts(&["region", "unknown"]));
    assert_eq!(rollups[0].granularity.as_deref(), Some("month"));
}

#[test]
fn sample_rollup_has_its_hash() {
    let view = ViewDef {
        pre_aggregations: Some(vec![PreAggregation {
            name: "by_region_monthly".to_string(),
            dimensions: texts(&["region"]),
            measures: texts(&["total_revenue"]),
            time_dimension: Some("created_at".to_string()),
            granularity: Some("month".to_string()),
        }]),
        measures: Some(vec![measure("total_revenue", MeasureType::Sum, Some("revenue"))]),
        ..full_view()
    };
    assert_eq!(resolve_rollups(&view)[0].hash, "4310539a");
}

#[test]
fn empty_list_of_rollups_gives_none() {
    let view = ViewDef {
        pre_aggregations: Some(vec![]),
        ..full_view()
    };
    assert!(resolve_rollups(&view).is_empty());
}

#[test]
fn default_rollup_of_a_bare_view() {
    let view = ViewDef {
        dimensions: vec![],
        measures: None,
        pre_aggregations: None,
        ..full_view()
    };
    let rollups = resolve_rollups(&view);
    assert_eq!(rollups.len(), 1);
    assert_eq!(rollups[0].name, "default");
    assert!(rollups[0].dimensions.is_empty());
    assert!(rollups[0].measures.is_empty());
    assert_eq!(rollups[0].time_dimension, None);
    assert_eq!(rollups[0].granularity.as_deref(), Some("day"));
}

#[test]
fn build_statements_of_a_full_rollup() {
    let view = full_view();
    let rollup = RollupSpec {
        hash: "a1b2c3d4".to_string(),
        ..resolve_rollups(&view)[0].clone()
    };
    let statements = generate_build_sql(&view, &rollup, "pre", "20260415", &Dialect::Postgres);
    assert_eq!(
        statements,
        vec![
            "DROP TABLE IF EXISTS \"pre\".\"orders__a1b2c3d4__20260415\"".to_string(),
            "CREATE TABLE \"pre\".\"orders__a1b2c3d4__20260415\" AS\nSELECT\n    \
             o.region AS \"region\",\n    \
             date_trunc('month', o.created_at) AS \"created_at__month\",\n    \
             user_id AS \"user_id\",\n    \
             amount AS \"amount\",\n    \
             SUM(amount) AS \"revenue__sum\",\n    \
             COUNT(*) AS \"orders__count\",\n    \
             SUM(price) AS \"avg_price__sum\",\n    \
             COUNT(price) AS \"avg_price__count\",\n    \
             MIN(price) AS \"low__min\",\n    \
             MAX(price) AS \"high__max\",\n    \
             COUNT(*) AS \"amount__freq\",\n    \
             a / b AS \"ratio__value\"\n\
             FROM shop.orders\nGROUP BY 1, 2, 3, 4"
                .to_string(),
        ]
    );
}

#[test]
fn build_statements_for_clickhouse_order_by_aliases() {
    let view = ViewDef {
        table: None,
        sql: Some("SELECT 1".to_string()),
        measures: Some(vec![measure("orders", MeasureType::Count, None)]),
        ..full_view()
    };
    let rollup = RollupSpec {
        hash: "ffffffff".to_string(),
        ..resolve_rollups(&view)[0].clone()
    };
    let statements = generate_build_sql(&view, &rollup, "pre", "20260415", &Dialect::ClickHouse);
    assert_eq!(
        statements[1],
        "CREATE TABLE \"pre\".\"orders__ffffffff__20260415\"\nENGINE = MergeTree()\n\
         ORDER BY (\"region\", \"created_at__month\")\nAS\nSELECT\n    \
         o.region AS \"region\",\n    \
         toStartOfMonth(o.created_at) AS \"created_at__month\",\n    \
         COUNT(*) AS \"orders__count\"\n\
         FROM (SELECT 1)\nGROUP BY 1, 2"
    );
}

#[test]
fn view_without_table_or_query_is_its_own_source() {
    let view = ViewDef {
        table: None,
        sql: None,
        ..full_view()
    };
    assert_eq!(view.source_sql(), "orders");
}

#[test]
fn ordinals_count_from_one() {
    assert_eq!(write_ordinals(0), "");
    assert_eq!(write_ordinals(1), "1");
    assert_eq!(write_ordinals(11), "1, 2, 3, 4, 5, 6, 7, 8, 9, 10, 11");
}

#[test]
fn numbers_are_written_in_decimal() {
    assert_eq!(to_decimal(0), "0");
    assert_eq!(to_decimal(9), "9");
    assert_eq!(to_decimal(10), "10");
    assert_eq!(to_decimal(u64::MAX), "18446744073709551615");
}

#[test]
fn manifest_create_statements() {
    assert_eq!(
        generate_manifest_create_sql("pre", &Dialect::Postgres),
        "CREATE TABLE IF NOT EXISTS \"pre\".\"__manifest\" (\n    \
         view_name VARCHAR,\n    rollup_name VARCHAR,\n    rollup_hash VARCHAR,\n    \
         table_name VARCHAR,\n    dimensions VARCHAR,\n    measures VARCHAR,\n    \
         time_dimension VARCHAR,\n    granularity VARCHAR,\n    build_date DATE,\n    \
         PRIMARY KEY (view_name, rollup_name)\n)"
    );
    assert_eq!(
        generate_manifest_create_sql("pre", &Dialect::ClickHouse),
        "CREATE TABLE IF NOT EXISTS \"pre\".\"__manifest\" (\n    \
         view_name String,\n    rollup_name String,\n    rollup_hash String,\n    \
         table_name String,\n    dimensions String,\n    measures String,\n    \
         time_dimension String,\n    granularity String,\n    build_date Date\n\
         ) ENGINE = ReplacingMergeTree(build_date)\nORDER BY (view_name, rollup_name)"
    );
    assert_eq!(
        generate_manifest_create_sql("pre", &Dialect::BigQuery),
        "CREATE TABLE IF NOT EXISTS `pre`.`__manifest` (\n    \
         view_name STRING,\n    rollup_name STRING,\n    rollup_hash STRING,\n    \
         table_name STRING,\n    dimensions STRING,\n    measures STRING,\n    \
         time_dimension STRING,\n    granularity STRING,\n    build_date DATE\n)"
    );
    assert_eq!(
        generate_manifest_create_sql("pre", &Dialect::SQLite),
        "CREATE TABLE IF NOT EXISTS \"pre\".\"__manifest\" (\n    \
         view_name TEXT,\n    rollup_name TEXT,\n    rollup_hash TEXT,\n    \
         table_name TEXT,\n    dimensions TEXT,\n    measures TEXT,\n    \
         time_dimension TEXT,\n    granularity TEXT,\n    build_date TEXT,\n    \
         UNIQUE (view_name, rollup_name)\n)"
    );
}

fn record() -> ManifestEntry {
    ManifestEntry {
        view_name: "o'rders".to_string(),
        rollup_name: "all".to_string(),
        rollup_hash: "a1b2c3d4".to_string(),
        table_name: "pre.orders__a1b2c3d4__20260415".to_string(),
        dimensions: texts(&["region", "it's", "a\"b"]),
        measures_json: "[]".to_string(),
        time_dimension: None,
        granularity: Some("month".to_string()),
        build_date: "2026-04-15".to_string(),
    }
}

#[test]
fn upsert_statements_hold_the_record() {
    let row = "(view_name, rollup_name, rollup_hash, table_name, dimensions, measures, \
               time_dimension, granularity, build_date) VALUES ('o''rders', 'all', 'a1b2c3d4', \
               'pre.orders__a1b2c3d4__20260415', '[\"region\",\"it''s\",\"a\\\"b\"]', '[]', '', \
               'month', '2026-04-15')";
    assert_eq!(
        generate_manifest_upsert_sql("pre", &record(), &Dialect::DuckDB),
        vec![
            "DELETE FROM \"pre\".\"__manifest\" WHERE view_name = 'o''rders' AND \
             rollup_name = 'all'"
                .to_string(),
            format!("INSERT INTO \"pre\".\"__manifest\" {}", row),
        ]
    );
    assert_eq!(
        generate_manifest_upsert_sql("pre", &record(), &Dialect::ClickHouse),
        vec![format!("INSERT INTO \"pre\".\"__manifest\" {}", row)]
    );
    assert_eq!(
        generate_manifest_upsert_sql("pre", &record(), &Dialect::SQLite),
        vec![format!("INSERT OR REPLACE INTO \"pre\".\"__manifest\" {}", row)]
    );
}

#[test]
fn upsert_statements_take_the_encoded_dimensions() {
    let statements = manifest_upsert_statements("pre", &record(), "['x']", &Dialect::SQLite);
    assert!(statements[0].contains("'[''x'']'"), "{}", statements[0]);
}

#[test]
fn lists_of_texts_become_json() {
    assert_eq!(texts_to_json(&texts(&[])), "[]");
    assert_eq!(
        texts_to_json(&texts(&["a", "b\"c", "d\\e", "f\n"])),
        "[\"a\",\"b\\\"c\",\"d\\\\e\",\"f\\n\"]"
    );
}

#[test]
fn manifest_entry_of_a_rollup() {
    let view = ViewDef {
        measures: Some(vec![
            measure("avg_price", MeasureType::Average, Some("price")),
            measure("users", MeasureType::CountDistinct, Some("user_id")),
        ]),
        ..full_view()
    };
    let rollup = &resolve_rollups(&view)[0];
    let entry = build_manifest_entry(&view, rollup, "pre", "20260415");
    assert_eq!(entry.view_name, "orders");
    assert_eq!(entry.rollup_name, "all");
    assert_eq!(entry.rollup_hash, rollup.hash);
    assert_eq!(
        entry.table_name,
        format!("pre.orders__{}__20260415", rollup.hash)
    );
    assert_eq!(entry.dimensions, texts(&["region", "unknown"]));
    assert_eq!(
        entry.measures_json,
        "[{\"columns\":[\"avg_price__sum\",\"avg_price__count\"],\"name\":\"avg_price\",\
         \"type\":\"average\"},{\"columns\":[\"user_id\"],\"name\":\"users\",\
         \"type\":\"count_distinct\"}]"
    );
    assert_eq!(entry.time_dimension.as_deref(), Some("created_at"));
    assert_eq!(entry.granularity.as_deref(), Some("month"));
    assert_eq!(entry.build_date, "2026-04-15");
}

#[test]
fn dates_that_are_not_compact_stay() {
    let view = full_view();
    let rollup = &resolve_rollups(&view)[0];
    for date in ["2026-04-15", "2026041", "202604155", "2026041x", "", "２０２６"] {
        assert_eq!(
            manifest_entry_with(&view, rollup, "pre", date, "[]".to_string()).build_date,
            date
        );
    }
}

#[test]
fn comparisons_with_values() {
    let one = ["a'b"];
    let two = ["x", "y"];
    assert_eq!(
        rendered(&filter("orders.region", FilterOperator::Equals, &one)).unwrap(),
        "\"region\" = 'a''b'"
    );
    assert_eq!(
        rendered(&filter("orders.region", FilterOperator::Equals, &two)).unwrap(),
        "\"region\" IN ('x', 'y')"
    );
    assert_eq!(
        rendered(&filter("orders.region", FilterOperator::Equals, &[])).unwrap(),
        "\"region\" IN ()"
    );
    assert_eq!(
        rendered(&filter("orders.region", FilterOperator::NotEquals, &one)).unwrap(),
        "\"region\" <> 'a''b'"
    );
    assert_eq!(
        rendered(&filter("orders.region", FilterOperator::NotEquals, &two)).unwrap(),
        "\"region\" NOT IN ('x', 'y')"
    );
    assert_eq!(
        rendered(&filter("region", FilterOperator::Gt, &two)).unwrap(),
        "\"region\" > 'x'"
    );
    assert_eq!(
        rendered(&filter("region", FilterOperator::Gte, &[])).unwrap(),
        "\"region\" >= NULL"
    );
    assert_eq!(
        rendered(&filter("region", FilterOperator::Lt, &["5"])).unwrap(),
        "\"region\" < '5'"
    );
    assert_eq!(
        rendered(&filter("region", FilterOperator::Lte, &["5"])).unwrap(),
        "\"region\" <= '5'"
    );
    assert_eq!(
        rendered(&filter("orders.region", FilterOperator::IsSet, &[])).unwrap(),
        "\"region\" IS NOT NULL"
    );
    assert_eq!(
        rendered(&filter("orders.region", FilterOperator::NotSet, &[])).unwrap(),
        "\"region\" IS NULL"
    );
    assert_eq!(
        rendered(&filter("orders.region", FilterOperator::Contains, &one)).unwrap(),
        "\"region\" LIKE '%a''b%'"
    );
    assert_eq!(
        rendered(&filter("orders.region", FilterOperator::NotContains, &[])).unwrap(),
        "\"region\" NOT LIKE '%%'"
    );
}

#[test]
fn comparisons_that_have_no_sql() {
    for operator in [
        FilterOperator::InDateRange,
        FilterOperator::NotInDateRange,
        FilterOperator::BeforeDate,
        FilterOperator::AfterDate,
    ] {
        assert!(rendered(&filter("orders.region", operator, &["2026"])).is_none());
    }
    assert!(rendered(&filter("orders.missing", FilterOperator::Equals, &["x"])).is_none());
    assert!(rendered(&all_of(vec![])).is_none());
    assert!(rendered(&any_of(vec![])).is_none());
    let empty = QueryFilter {
        member: None,
        operator: None,
        values: vec![],
        and: None,
        or: None,
    };
    assert!(rendered(&empty).is_none());
}

#[test]
fn filters_on_the_time_dimension_read_its_stored_column() {
    let f = filter("orders.created_at", FilterOperator::Gt, &["2026"]);
    assert_eq!(rendered(&f).unwrap(), "\"created_at__month\" > '2026'");
    let without = LocalRollupEntry {
        granularity: None,
        ..entry()
    };
    assert_eq!(
        render_filter_sql(&f, &without, &Dialect::BigQuery).unwrap(),
        "`created_at` > '2026'"
    );
}

#[test]
fn combined_filters_are_bracketed() {
    let f = all_of(vec![
        filter("orders.region", FilterOperator::Equals, &["US"]),
        any_of(vec![
            filter("orders.status", FilterOperator::IsSet, &[]),
            filter("orders.status", FilterOperator::InDateRange, &["x"]),
            filter("orders.status", FilterOperator::Equals, &["a"]),
        ]),
    ]);
    assert_eq!(
        rendered(&f).unwrap(),
        "(\"region\" = 'US' AND (\"status\" IS NOT NULL OR \"status\" = 'a'))"
    );
    let mut members: Vec<String> = vec!["first".to_string()];
    collect_filter_members(&f, &mut members);
    assert_eq!(
        members,
        texts(&[
            "first",
            "orders.region",
            "orders.status",
            "orders.status",
            "orders.status"
        ])
    );
}

#[test]
fn where_clause_joins_the_filters() {
    let request = QueryRequest {
        filters: vec![
            filter("orders.region", FilterOperator::Equals, &["US"]),
            filter("orders.region", FilterOperator::BeforeDate, &["x"]),
            filter("orders.status", FilterOperator::NotSet, &[]),
        ],
        ..QueryRequest::new()
    };
    assert_eq!(
        build_reagg_where_clause(&request, &entry(), &Dialect::MySQL),
        "\nWHERE `region` = 'US' AND `status` IS NULL"
    );
    assert_eq!(
        build_reagg_where_clause(&QueryRequest::new(), &entry(), &Dialect::MySQL),
        ""
    );
}

#[test]
fn local_query_in_full() {
    let request = QueryRequest {
        measures: texts(&["orders.revenue", "orders.absent"]),
        dimensions: texts(&["orders.region"]),
        filters: vec![filter("orders.status", FilterOperator::Equals, &["ok"])],
        time_dimensions: vec![
            TimeDimensionQuery {
                dimension: "orders.created_at".to_string(),
                granularity: Some("year".to_string()),
            },
            TimeDimensionQuery {
                dimension: "created_at".to_string(),
                granularity: None,
            },
        ],
        limit: Some(10),
        offset: Some(0),
    };
    assert_eq!(
        generate_reagg_sql(&request, &entry(), "/c/it's.parquet"),
        "SELECT \"region\" AS \"orders__region\", \
         date_trunc('year', \"created_at__month\") AS \"orders__created_at\", \
         \"created_at__month\" AS \"created_at\", \
         SUM(\"revenue__sum\") AS \"orders__revenue\"\n\
         FROM read_parquet('/c/it''s.parquet')\n\
         WHERE \"status\" = 'ok'\n\
         GROUP BY \"region\", date_trunc('year', \"created_at__month\"), \"created_at__month\"\n\
         LIMIT 10\nOFFSET 0"
    );
}

#[test]
fn warehouse_query_in_full() {
    let request = QueryRequest {
        measures: texts(&["orders.revenue"]),
        dimensions: texts(&["orders.region"]),
        time_dimensions: vec![TimeDimensionQuery {
            dimension: "orders.created_at".to_string(),
            granularity: Some("month".to_string()),
        }],
        limit: Some(5),
        ..QueryRequest::new()
    };
    assert_eq!(
        generate_warehouse_reagg_sql(&request, &entry(), "t", &Dialect::MySQL),
        "SELECT `region` AS `orders__region`, `created_at__month` AS `orders__created_at`, \
         SUM(`revenue__sum`) AS `orders__revenue`\nFROM t\nGROUP BY 1, 2\nLIMIT 5"
    );
}

#[test]
fn measures_fall_back_to_default_columns() {
    let request = QueryRequest {
        measures: texts(&[
            "bare_sum",
            "bare_avg",
            "bare_users",
            "mid",
            "ratio",
            "special",
            "odd",
            "untyped",
        ]),
        ..QueryRequest::new()
    };
    assert_eq!(
        generate_reagg_sql(&request, &entry(), "f"),
        "SELECT SUM(\"bare_sum__sum\") AS \"bare_sum\", \
         CAST(SUM(\"s\") AS DOUBLE) / NULLIF(SUM(\"bare_avg__count\"), 0) AS \"bare_avg\", \
         COUNT(DISTINCT \"bare_users\") AS \"bare_users\", \
         MEDIAN(\"amount\") AS \"mid\", \
         \"ratio__value\" AS \"ratio\", \
         NULL AS \"special\", NULL AS \"odd\", NULL AS \"untyped\"\n\
         FROM read_parquet('f')"
    );
    assert_eq!(
        generate_warehouse_reagg_sql(&request, &entry(), "t", &Dialect::Redshift),
        "SELECT SUM(\"bare_sum__sum\") AS \"bare_sum\", \
         CAST(SUM(\"s\") AS DOUBLE PRECISION) / NULLIF(SUM(\"bare_avg__count\"), 0) \
         AS \"bare_avg\", \
         COUNT(DISTINCT \"bare_users\") AS \"bare_users\", \
         NULL AS \"mid\", NULL AS \"ratio\", \
         NULL AS \"special\", NULL AS \"odd\", NULL AS \"untyped\"\nFROM t"
    );
}

#[test]
fn granularity_is_not_had_from_a_rollup_without_one() {
    let without = LocalRollupEntry {
        granularity: None,
        ..entry()
    };
    let request = QueryRequest {
        dimensions: texts(&["orders.region"]),
        time_dimensions: vec![
            TimeDimensionQuery {
                dimension: "orders.created_at".to_string(),
                granularity: Some("year".to_string()),
            },
            TimeDimensionQuery {
                dimension: "orders.created_at".to_string(),
                granularity: None,
            },
        ],
        ..QueryRequest::new()
    };
    assert_eq!(
        generate_reagg_sql(&request, &without, "f"),
        "SELECT \"region\" AS \"orders__region\", \"created_at\" AS \"orders__created_at\"\n\
         FROM read_parquet('f')\nGROUP BY \"region\", \"created_at\""
    );
}

#[test]
fn truncation_in_every_dialect() {
    assert_eq!(
        Dialect::MySQL.date_trunc("month", "d"),
        "DATE_FORMAT(d, '%Y-%m-01 00:00:00')"
    );
    assert_eq!(Dialect::MySQL.date_trunc("era", "d"), "d");
    assert_eq!(Dialect::ClickHouse.date_trunc("week", "d"), "toMonday(d)");
    assert_eq!(
        Dialect::ClickHouse.date_trunc("decade", "d"),
        "dateTrunc('decade', d)"
    );
    assert_eq!(
        Dialect::BigQuery.date_trunc("quarter", "d"),
        "TIMESTAMP_TRUNC(d, QUARTER)"
    );
    assert_eq!(
        Dialect::Presto.date_trunc("day", "d"),
        "DATE_TRUNC('day', d)"
    );
    assert_eq!(
        Dialect::Databricks.date_trunc("day", "d"),
        "date_trunc('day', d)"
    );
}

#[test]
fn schemas_are_created_where_they_can_be() {
    assert_eq!(
        Dialect::Postgres.create_schema_ddl("pre").as_deref(),
        Some("CREATE SCHEMA IF NOT EXISTS \"pre\"")
    );
    assert_eq!(
        Dialect::ClickHouse.create_schema_ddl("pre").as_deref(),
        Some("CREATE DATABASE IF NOT EXISTS \"pre\"")
    );
    assert_eq!(Dialect::BigQuery.create_schema_ddl("pre"), None);
}

#[test]
fn identifiers_are_quoted() {
    assert_eq!(Dialect::Domo.quote_identifier("a b"), "`a b`");
    assert_eq!(Dialect::Snowflake.quote_identifier("a_é1"), "\"A_é1\"");
    assert_eq!(Dialect::Presto.quote_identifier("Ab"), "\"Ab\"");
    assert_eq!(to_upper("xyzXYZ09"), "XYZXYZ09");
}

#[test]
fn members_are_split_at_their_dots() {
    assert_eq!(name_of_member("orders.region"), "region");
    assert_eq!(name_of_member("orders.region.extra"), "region");
    assert_eq!(name_of_member("region"), "region");
    assert_eq!(name_of_member("orders."), "");
    assert_eq!(name_of_member(".x"), "x");
    assert_eq!(name_of_member(""), "");
    assert_eq!(view_of_member("orders.region").as_deref(), Some("orders"));
    assert_eq!(view_of_member("region"), None);
}

#[test]
fn views_of_a_query_are_listed_once() {
    let request = QueryRequest {
        measures: texts(&["b.m", "bare"]),
        dimensions: texts(&["a.d", "b.d"]),
        filters: vec![filter("c.f", FilterOperator::IsSet, &[])],
        time_dimensions: vec![TimeDimensionQuery {
            dimension: "a.t".to_string(),
            granularity: None,
        }],
        ..QueryRequest::new()
    };
    assert_eq!(request.referenced_views(), texts(&["a", "b", "c"]));
}

#[test]
fn granularities_compare() {
    assert!(is_coarser_or_equal("year", "second"));
    assert!(is_coarser_or_equal("week", "day"));
    assert!(!is_coarser_or_equal("day", "week"));
    assert!(!is_coarser_or_equal("second", "minute"));
    assert!(is_coarser_or_equal("era", "era"));
    assert!(!is_coarser_or_equal("era", "year"));
    assert!(!is_coarser_or_equal("year", "era"));
}

#[test]
fn json_fields_are_found() {
    let value = Json::Object(vec![
        ("a".to_string(), Json::Number("1".to_string())),
        (
            "list".to_string(),
            Json::Array(vec![
                Json::Str("x".to_string()),
                Json::Null,
                Json::Str("y".to_string()),
            ]),
        ),
    ]);
    assert!(matches!(value.get("a"), Some(Json::Number(_))));
    assert!(value.get("b").is_none());
    assert_eq!(value.get_str("a"), None);
    assert_eq!(value.get_strings("list"), texts(&["x", "y"]));
    assert!(value.get_strings("a").is_empty());
    assert!(Json::Bool(true).get("a").is_none());
    assert_eq!(value.clone().get_strings("list"), texts(&["x", "y"]));
}

#[test]
fn local_manifest_holds_its_rollups() {
    let manifest = LocalManifest {
        pulled_at: "2026-04-15T10:30:00Z".to_string(),
        source_database: "warehouse".to_string(),
        rollups: vec![entry()],
    };
    let copy = manifest.clone();
    assert_eq!(copy.rollups.len(), 1);
    assert_eq!(copy.rollups[0].measures[0].get_str("name"), Some("revenue"));
}
