//! Rollups, their SQL, the manifest and coverage, on sample views.

use preagg::build_sql::generate_build_sql;
use preagg::coverage::check_coverage;
use preagg::dialect::Dialect;
use preagg::hash::compute_rollup_hash;
use preagg::json::Json;
use preagg::manifest::{
    generate_manifest_create_sql, generate_manifest_upsert_sql, LocalRollupEntry, ManifestEntry,
};
use preagg::query::{FilterOperator, QueryFilter, QueryRequest, TimeDimensionQuery};
use preagg::reagg_sql::{generate_reagg_sql, generate_warehouse_reagg_sql};
use preagg::rollup::resolve_rollups;
use preagg::schema::{
    Dimension, DimensionType, Measure, MeasureType, PreAggregation, ViewDef,
};

/// A measure's object in a manifest.
fn recorded(name: &str, measure_type: &str, columns: &[&str]) -> Json {
    Json::Object(vec![
        ("name".to_string(), Json::Str(name.to_string())),
        ("type".to_string(), Json::Str(measure_type.to_string())),
        (
            "columns".to_string(),
            Json::Array(columns.iter().map(|c| Json::Str(c.to_string())).collect()),
        ),
    ])
}

fn label(dialect: &Dialect) -> String {
    format!("{:?}", dialect)
}

#[test]
fn test_generate_build_sql_sum() {
    let view = test_view_with_preaggs();
    let rollups = resolve_rollups(&view);
    let sqls = generate_build_sql(
        &view,
        &rollups[0],
        "AIRLAYER",
        "20260415",
        &Dialect::ClickHouse,
    );
    assert_eq!(sqls.len(), 2); // DROP + CTAS
    let ctas = &sqls[1];
    assert!(
        ctas.contains("CREATE TABLE"),
        "Missing CREATE TABLE: {}",
        ctas
    );
    assert!(ctas.contains("AIRLAYER"), "Missing schema: {}", ctas);
    assert!(ctas.contains("orders__"), "Missing view name: {}", ctas);
    assert!(ctas.contains("20260415"), "Missing date: {}", ctas);
    assert!(ctas.contains("SUM("), "Missing SUM aggregation: {}", ctas);
    assert!(
        ctas.contains("total_revenue__sum"),
        "Missing column alias: {}",
        ctas
    );
    assert!(
        ctas.contains("toStartOfMonth"),
        "Missing ClickHouse date_trunc: {}",
        ctas
    );
}

#[test]
fn test_generate_manifest_sql_clickhouse() {
    let create = generate_manifest_create_sql("AIRLAYER", &Dialect::ClickHouse);
    assert!(
        create.contains("__manifest"),
        "Missing manifest: {}",
        create
    );
    assert!(
        create.contains("ReplacingMergeTree"),
        "Missing engine: {}",
        create
    );
}

#[test]
fn test_generate_manifest_sql_postgres() {
    let create = generate_manifest_create_sql("preagg", &Dialect::Postgres);
    assert!(
        create.contains("\"preagg\".\"__manifest\""),
        "Missing quoted name: {}",
        create
    );
    assert!(create.contains("PRIMARY KEY"), "Missing PK: {}", create);
}

#[test]
fn test_generate_manifest_sql_bigquery() {
    let create = generate_manifest_create_sql("my_dataset", &Dialect::BigQuery);
    assert!(
        create.contains("`my_dataset`.`__manifest`"),
        "Missing backtick-quoted name: {}",
        create
    );
    assert!(create.contains("STRING"), "Missing STRING type: {}", create);
    assert!(
        !create.contains("PRIMARY KEY"),
        "BigQuery should not have PK: {}",
        create
    );
}

#[test]
fn test_generate_manifest_sql_sqlite() {
    let create = generate_manifest_create_sql("preagg", &Dialect::SQLite);
    assert!(create.contains("TEXT"), "Missing TEXT type: {}", create);
    assert!(create.contains("UNIQUE"), "Missing UNIQUE: {}", create);
    assert!(
        !create.contains("PRIMARY KEY"),
        "SQLite should use UNIQUE not PK: {}",
        create
    );
}

#[test]
fn test_build_sql_uses_dialect_quoting() {
    let view = test_view_with_preaggs();
    let rollups = resolve_rollups(&view);
    // BigQuery should use backtick quoting
    let sqls = generate_build_sql(
        &view,
        &rollups[0],
        "my_dataset",
        "20260415",
        &Dialect::BigQuery,
    );
    let ctas = &sqls[1];
    assert!(
        ctas.contains("`my_dataset`"),
        "Missing backtick-quoted schema: {}",
        ctas
    );
}

#[test]
fn test_manifest_upsert_sqlite_uses_replace() {
    let entry = ManifestEntry {
        view_name: "orders".into(),
        rollup_name: "by_region".into(),
        rollup_hash: "a1b2c3d4".into(),
        table_name: "preagg.orders__a1b2c3d4__20260415".into(),
        dimensions: vec!["region".into()],
        measures_json: "[]".into(),
        time_dimension: None,
        granularity: None,
        build_date: "2026-04-15".into(),
    };
    let stmts =
        generate_manifest_upsert_sql("preagg", &entry, &Dialect::SQLite);
    assert_eq!(stmts.len(), 1, "SQLite should use INSERT OR REPLACE");
    assert!(
        stmts[0].contains("INSERT OR REPLACE"),
        "Missing INSERT OR REPLACE: {}",
        stmts[0]
    );
}

#[test]
fn test_generate_manifest_upsert() {
    let entry = ManifestEntry {
        view_name: "orders".into(),
        rollup_name: "by_region".into(),
        rollup_hash: "a1b2c3d4".into(),
        table_name: "orders__a1b2c3d4__20260415".into(),
        dimensions: vec!["region".into()],
        measures_json: "[]".into(),
        time_dimension: Some("created_at".into()),
        granularity: Some("month".into()),
        build_date: "2026-04-15".into(),
    };
    let stmts =
        generate_manifest_upsert_sql("AIRLAYER", &entry, &Dialect::ClickHouse);
    assert_eq!(stmts.len(), 1, "ClickHouse should produce only INSERT");
    assert!(
        stmts[0].contains("INSERT INTO"),
        "Missing INSERT: {}",
        stmts[0]
    );
    assert!(
        stmts[0].contains("orders"),
        "Missing view name: {}",
        stmts[0]
    );

    // Non-ClickHouse should produce DELETE + INSERT
    let stmts_duckdb =
        generate_manifest_upsert_sql("AIRLAYER", &entry, &Dialect::DuckDB);
    assert_eq!(
        stmts_duckdb.len(),
        2,
        "DuckDB should produce DELETE + INSERT"
    );
    assert!(
        stmts_duckdb[0].contains("DELETE FROM"),
        "Missing DELETE: {}",
        stmts_duckdb[0]
    );
    assert!(
        stmts_duckdb[1].contains("INSERT INTO"),
        "Missing INSERT: {}",
        stmts_duckdb[1]
    );
}

#[test]
fn test_rollup_hash_deterministic() {
    let h1 = compute_rollup_hash(
        &["region".into(), "status".into()],
        &["revenue".into()],
        Some("created_at"),
        Some("month"),
    );
    let h2 = compute_rollup_hash(
        &["region".into(), "status".into()],
        &["revenue".into()],
        Some("created_at"),
        Some("month"),
    );
    assert_eq!(h1, h2);
    assert_eq!(h1.len(), 8);
}

#[test]
fn test_rollup_hash_order_independent() {
    let h1 = compute_rollup_hash(
        &["region".into(), "status".into()],
        &["a".into(), "b".into()],
        None,
        None,
    );
    let h2 = compute_rollup_hash(
        &["status".into(), "region".into()],
        &["b".into(), "a".into()],
        None,
        None,
    );
    assert_eq!(h1, h2);
}

#[test]
fn test_rollup_hash_different_inputs() {
    let h1 = compute_rollup_hash(
        &["region".into()],
        &["revenue".into()],
        Some("created_at"),
        Some("month"),
    );
    let h2 = compute_rollup_hash(
        &["status".into()],
        &["revenue".into()],
        Some("created_at"),
        Some("month"),
    );
    assert_ne!(h1, h2);
}

#[test]
fn test_resolve_rollups_explicit() {
    let view = test_view_with_preaggs();
    let rollups = resolve_rollups(&view);
    assert_eq!(rollups.len(), 1);
    assert_eq!(rollups[0].name, "by_region_monthly");
    assert_eq!(rollups[0].dimensions, vec!["region"]);
    assert_eq!(rollups[0].time_dimension.as_deref(), Some("created_at"));
}

#[test]
fn test_resolve_rollups_default_all() {
    let view = test_view_no_preaggs();
    let rollups = resolve_rollups(&view);
    assert_eq!(rollups.len(), 1);
    assert_eq!(rollups[0].name, "default");
    // Should include all dimensions (except datetime — that's the time dim)
    assert!(rollups[0].dimensions.contains(&"region".to_string()));
    // Should include all measures (except custom)
    assert!(rollups[0]
        .measures
        .iter()
        .any(|m| m.name == "total_revenue"));
}

fn test_view_with_preaggs() -> ViewDef {
    ViewDef {
        name: "orders".to_string(),
        table: Some("orders".to_string()),
        sql: None,
        dimensions: vec![
            Dimension {
                name: "region".into(),
                dimension_type: DimensionType::String,
                expr: "region".into(),
            },
            Dimension {
                name: "created_at".into(),
                dimension_type: DimensionType::Datetime,
                expr: "created_at".into(),
            },
        ],
        measures: Some(vec![Measure {
            name: "total_revenue".into(),
            measure_type: MeasureType::Sum,
            expr: Some("revenue".into()),
        }]),
        pre_aggregations: Some(vec![PreAggregation {
            name: "by_region_monthly".into(),
            dimensions: vec!["region".into()],
            measures: vec!["total_revenue".into()],
            time_dimension: Some("created_at".into()),
            granularity: Some("month".into()),
        }]),
    }
}

fn test_view_no_preaggs() -> ViewDef {
    ViewDef {
        name: "orders".into(),
        table: Some("orders".into()),
        sql: None,
        dimensions: vec![
            Dimension {
                name: "region".into(),
                dimension_type: DimensionType::String,
                expr: "region".into(),
            },
            Dimension {
                name: "created_at".into(),
                dimension_type: DimensionType::Datetime,
                expr: "created_at".into(),
            },
        ],
        measures: Some(vec![
            Measure {
                name: "total_revenue".into(),
                measure_type: MeasureType::Sum,
                expr: Some("revenue".into()),
            },
            Measure {
                name: "avg_revenue".into(),
                measure_type: MeasureType::Average,
                expr: Some("revenue".into()),
            },
        ]),
        pre_aggregations: None,
    }
}

fn test_local_rollup_entry() -> LocalRollupEntry {
    LocalRollupEntry {
        view_name: "orders".into(),
        rollup_name: "by_region_monthly".into(),
        rollup_hash: "a1b2c3d4".into(),
        file: "orders__a1b2c3d4.parquet".into(),
        dimensions: vec!["region".into()],
        measures: vec![
            recorded("total_revenue", "sum", &["total_revenue__sum"]),
        ],
        time_dimension: Some("created_at".into()),
        granularity: Some("month".into()),
        build_date: "2026-04-15".into(),
    }
}

#[test]
fn test_reagg_sql_basic() {
    let entry = test_local_rollup_entry();
    let request = QueryRequest {
        measures: vec!["orders.total_revenue".to_string()],
        dimensions: vec!["orders.region".to_string()],
        ..QueryRequest::new()
    };
    let sql = generate_reagg_sql(&request, &entry, "/data/orders.parquet");
    assert!(
        sql.contains("read_parquet('/data/orders.parquet')"),
        "Missing FROM: {}",
        sql
    );
    assert!(
        sql.contains("SUM(\"total_revenue__sum\")"),
        "Missing SUM re-agg: {}",
        sql
    );
    assert!(
        sql.contains("\"region\""),
        "Missing dimension column: {}",
        sql
    );
    assert!(sql.contains("GROUP BY"), "Missing GROUP BY: {}", sql);
}

#[test]
fn test_reagg_sql_with_time_dimension_same_gran() {
    let entry = test_local_rollup_entry(); // stored gran = "month"
    let request = QueryRequest {
        measures: vec!["orders.total_revenue".to_string()],
        time_dimensions: vec![TimeDimensionQuery {
            dimension: "orders.created_at".to_string(),
            granularity: Some("month".to_string()),
        }],
        ..QueryRequest::new()
    };
    let sql = generate_reagg_sql(&request, &entry, "/data/orders.parquet");
    // Same granularity: should select the stored column directly, no date_trunc
    assert!(
        sql.contains("\"created_at__month\""),
        "Missing stored time col: {}",
        sql
    );
    assert!(
        !sql.contains("date_trunc"),
        "Should not re-truncate same gran: {}",
        sql
    );
}

#[test]
fn test_reagg_sql_with_time_dimension_coarser_gran() {
    let entry = test_local_rollup_entry(); // stored gran = "month"
    let request = QueryRequest {
        measures: vec!["orders.total_revenue".to_string()],
        time_dimensions: vec![TimeDimensionQuery {
            dimension: "orders.created_at".to_string(),
            granularity: Some("year".to_string()),
        }],
        ..QueryRequest::new()
    };
    let sql = generate_reagg_sql(&request, &entry, "/data/orders.parquet");
    // Coarser granularity: should apply date_trunc over the stored monthly column
    assert!(
        sql.contains("date_trunc('year', \"created_at__month\")"),
        "Missing date_trunc: {}",
        sql
    );
}

#[test]
fn test_reagg_sql_no_gran_uses_stored_col() {
    let entry = test_local_rollup_entry(); // stored gran = "month"
    let request = QueryRequest {
        measures: vec!["orders.total_revenue".to_string()],
        time_dimensions: vec![TimeDimensionQuery {
            dimension: "orders.created_at".to_string(),
            granularity: None,
        }],
        ..QueryRequest::new()
    };
    let sql = generate_reagg_sql(&request, &entry, "/data/orders.parquet");
    // No requested gran: should fall back to the stored truncated column, not bare "created_at"
    assert!(
        sql.contains("\"created_at__month\""),
        "Should use stored truncated col: {}",
        sql
    );
    assert!(
        !sql.contains("\"created_at\""),
        "Should not select bare column: {}",
        sql
    );
}

#[test]
fn test_reagg_sql_parquet_path_escaping() {
    let entry = test_local_rollup_entry();
    let request = QueryRequest {
        measures: vec!["orders.total_revenue".to_string()],
        ..QueryRequest::new()
    };
    let sql = generate_reagg_sql(&request, &entry, "/data/it's_here.parquet");
    assert!(
        sql.contains("it''s_here"),
        "Single quote should be escaped: {}",
        sql
    );
}

#[test]
fn test_reagg_sql_limit_offset() {
    let entry = test_local_rollup_entry();
    let request = QueryRequest {
        measures: vec!["orders.total_revenue".to_string()],
        limit: Some(100),
        offset: Some(20),
        ..QueryRequest::new()
    };
    let sql = generate_reagg_sql(&request, &entry, "/data/orders.parquet");
    assert!(sql.contains("LIMIT 100"), "Missing LIMIT: {}", sql);
    assert!(sql.contains("OFFSET 20"), "Missing OFFSET: {}", sql);
}

#[test]
fn test_warehouse_reagg_sql_substitutes_table() {
    let entry = test_local_rollup_entry();
    let request = QueryRequest {
        measures: vec!["orders.total_revenue".to_string()],
        dimensions: vec!["orders.region".to_string()],
        ..QueryRequest::new()
    };
    let sql = generate_warehouse_reagg_sql(
        &request,
        &entry,
        "AIRLAYER.orders__a1b2c3d4__20260415",
        &Dialect::ClickHouse,
    );
    assert!(
        !sql.contains("read_parquet"),
        "Should not have read_parquet: {}",
        sql
    );
    assert!(
        sql.contains("AIRLAYER.orders__a1b2c3d4__20260415"),
        "Missing table name: {}",
        sql
    );
}

#[test]
fn test_coverage_check_covered() {
    let entry = test_local_rollup_entry();
    let rollups = [entry];
    let request = QueryRequest {
        measures: vec!["orders.total_revenue".to_string()],
        dimensions: vec!["orders.region".to_string()],
        ..QueryRequest::new()
    };
    let result = check_coverage(&request, &rollups);
    assert!(result.is_some(), "Expected coverage match");
}

#[test]
fn test_coverage_check_not_covered_missing_dim() {
    let entry = test_local_rollup_entry();
    let rollups = [entry];
    let request = QueryRequest {
        measures: vec!["orders.total_revenue".to_string()],
        dimensions: vec!["orders.status".to_string()], // Not in rollup
        ..QueryRequest::new()
    };
    let result = check_coverage(&request, &rollups);
    assert!(result.is_none(), "Expected no coverage match");
}

#[test]
fn test_coverage_check_not_covered_missing_measure() {
    let entry = test_local_rollup_entry();
    let rollups = [entry];
    let request = QueryRequest {
        measures: vec!["orders.other_metric".to_string()], // Not in rollup
        dimensions: vec!["orders.region".to_string()],
        ..QueryRequest::new()
    };
    let result = check_coverage(&request, &rollups);
    assert!(result.is_none(), "Expected no coverage match");
}

#[test]
fn test_coverage_rejects_median_and_number_measures() {
    let entry = LocalRollupEntry {
        view_name: "orders".into(),
        rollup_name: "test".into(),
        rollup_hash: "abc".into(),
        file: "test.parquet".into(),
        dimensions: vec!["region".into()],
        measures: vec![
            recorded("med_rev", "median", &["revenue", "revenue__freq"]),
            recorded("computed", "number", &["computed__value"]),
        ],
        time_dimension: None,
        granularity: None,
        build_date: "2026-04-16".into(),
    };
    let rollups = [entry];

    let request = QueryRequest {
        measures: vec!["orders.med_rev".to_string()],
        ..QueryRequest::new()
    };
    assert!(
        check_coverage(&request, &rollups).is_none(),
        "Median should not be covered"
    );

    let request = QueryRequest {
        measures: vec!["orders.computed".to_string()],
        ..QueryRequest::new()
    };
    assert!(
        check_coverage(&request, &rollups).is_none(),
        "Number should not be covered"
    );
}

#[test]
fn test_coverage_allows_filtered_query_when_dim_in_rollup() {
    let entry = test_local_rollup_entry();
    let rollups = [entry];
    let request = QueryRequest {
        measures: vec!["orders.total_revenue".to_string()],
        dimensions: vec!["orders.region".to_string()],
        filters: vec![QueryFilter {
            member: Some("orders.region".to_string()),
            operator: Some(FilterOperator::Equals),
            values: vec!["US".to_string()],
            and: None,
            or: None,
        }],
        ..QueryRequest::new()
    };
    let result = check_coverage(&request, &rollups);
    assert!(
        result.is_some(),
        "Filter on rollup dimension should be covered"
    );
}

#[test]
fn test_coverage_rejects_filter_on_missing_dim() {
    let entry = test_local_rollup_entry();
    let rollups = [entry];
    let request = QueryRequest {
        measures: vec!["orders.total_revenue".to_string()],
        filters: vec![QueryFilter {
            member: Some("orders.status".to_string()), // Not in rollup
            operator: Some(FilterOperator::Equals),
            values: vec!["active".to_string()],
            and: None,
            or: None,
        }],
        ..QueryRequest::new()
    };
    let result = check_coverage(&request, &rollups);
    assert!(
        result.is_none(),
        "Filter on non-rollup dimension should not be covered"
    );
}

#[test]
fn test_reagg_sql_with_filter() {
    let entry = test_local_rollup_entry();
    let request = QueryRequest {
        measures: vec!["orders.total_revenue".to_string()],
        dimensions: vec!["orders.region".to_string()],
        filters: vec![QueryFilter {
            member: Some("orders.region".to_string()),
            operator: Some(FilterOperator::Equals),
            values: vec!["US".to_string()],
            and: None,
            or: None,
        }],
        ..QueryRequest::new()
    };
    let sql = generate_reagg_sql(&request, &entry, "/data/orders.parquet");
    assert!(
        sql.contains("WHERE \"region\" = 'US'"),
        "Missing WHERE clause: {}",
        sql
    );
}

#[test]
fn test_warehouse_reagg_sql_dialect_aware() {
    let entry = test_local_rollup_entry();
    let request = QueryRequest {
        measures: vec!["orders.total_revenue".to_string()],
        dimensions: vec!["orders.region".to_string()],
        ..QueryRequest::new()
    };
    // Postgres should use double-quote identifiers
    let sql = generate_warehouse_reagg_sql(
        &request,
        &entry,
        "\"preagg\".\"orders__abc__20260415\"",
        &Dialect::Postgres,
    );
    assert!(
        sql.contains("\"region\""),
        "Should use double-quote identifiers: {}",
        sql
    );
    assert!(
        sql.contains("SUM(\"total_revenue__sum\")"),
        "Should have SUM re-agg: {}",
        sql
    );

    // BigQuery should use backtick identifiers
    let sql = generate_warehouse_reagg_sql(
        &request,
        &entry,
        "`my_dataset`.`orders__abc__20260415`",
        &Dialect::BigQuery,
    );
    assert!(
        sql.contains("`region`"),
        "Should use backtick identifiers: {}",
        sql
    );
}

#[test]
fn test_warehouse_reagg_sql_average_uses_cast() {
    let entry = LocalRollupEntry {
        view_name: "orders".into(),
        rollup_name: "test".into(),
        rollup_hash: "abc".into(),
        file: "test.parquet".into(),
        dimensions: vec![],
        measures: vec![recorded("avg_rev", "average", &["avg_rev__sum", "avg_rev__count"])],
        time_dimension: None,
        granularity: None,
        build_date: "2026-04-16".into(),
    };
    let request = QueryRequest {
        measures: vec!["orders.avg_rev".to_string()],
        ..QueryRequest::new()
    };
    let sql = generate_warehouse_reagg_sql(
        &request,
        &entry,
        "preagg.test",
        &Dialect::Postgres,
    );
    assert!(
        sql.contains("CAST(SUM(\"avg_rev__sum\") AS DOUBLE PRECISION)"),
        "Postgres should use DOUBLE PRECISION: {}",
        sql
    );

    let sql = generate_warehouse_reagg_sql(
        &request,
        &entry,
        "preagg.test",
        &Dialect::BigQuery,
    );
    assert!(
        sql.contains("CAST(SUM(`avg_rev__sum`) AS FLOAT64)"),
        "BigQuery should use FLOAT64: {}",
        sql
    );
}

#[test]
fn test_default_rollup_excludes_median_and_number() {
    let view = ViewDef {
        name: "test".into(),
        table: Some("test".into()),
        sql: None,
        dimensions: vec![Dimension {
            name: "region".into(),
            dimension_type: DimensionType::String,
            expr: "region".into(),
        }],
        measures: Some(vec![
            Measure {
                name: "total".into(),
                measure_type: MeasureType::Sum,
                expr: Some("amount".into()),
            },
            Measure {
                name: "med".into(),
                measure_type: MeasureType::Median,
                expr: Some("amount".into()),
            },
            Measure {
                name: "computed".into(),
                measure_type: MeasureType::Number,
                expr: Some("amount / qty".into()),
            },
        ]),
        pre_aggregations: None,
    };
    let rollups = resolve_rollups(&view);
    assert_eq!(rollups.len(), 1);
    let measure_names: Vec<&str> = rollups[0]
        .measures
        .iter()
        .map(|m| m.name.as_str())
        .collect();
    assert!(measure_names.contains(&"total"), "Sum should be included");
    assert!(!measure_names.contains(&"med"), "Median should be excluded");
    assert!(
        !measure_names.contains(&"computed"),
        "Number should be excluded"
    );
}

// Every dialect.

fn all_dialects() -> Vec<Dialect> {
    vec![
        Dialect::Postgres,
        Dialect::MySQL,
        Dialect::BigQuery,
        Dialect::Snowflake,
        Dialect::DuckDB,
        Dialect::ClickHouse,
        Dialect::Databricks,
        Dialect::Redshift,
        Dialect::SQLite,
        Dialect::Domo,
        Dialect::Presto,
    ]
}

/// Helper: build a rollup entry with sum + average + count_distinct measures.
fn rich_local_rollup_entry() -> LocalRollupEntry {
    LocalRollupEntry {
        view_name: "orders".into(),
        rollup_name: "by_region_monthly".into(),
        rollup_hash: "a1b2c3d4".into(),
        file: "orders__a1b2c3d4.parquet".into(),
        dimensions: vec!["region".into(), "status".into()],
        measures: vec![
            recorded("total_revenue", "sum", &["total_revenue__sum"]),
            recorded("avg_price", "average", &["avg_price__sum", "avg_price__count"]),
            recorded("event_count", "count", &["event_count__count"]),
            recorded("max_amount", "max", &["max_amount__max"]),
            recorded("min_amount", "min", &["min_amount__min"]),
            recorded("unique_users", "count_distinct", &["user_id"]),
        ],
        time_dimension: Some("created_at".into()),
        granularity: Some("month".into()),
        build_date: "2026-04-16".into(),
    }
}

#[test]
fn test_build_sql_all_dialects() {
    let view = test_view_with_preaggs();
    let rollups = resolve_rollups(&view);
    for dialect in all_dialects() {
        let sqls = generate_build_sql(&view, &rollups[0], "preagg", "20260416", &dialect);
        assert_eq!(sqls.len(), 2, "{}: expected DROP + CTAS", label(&dialect));
        let drop = &sqls[0];
        let ctas = &sqls[1];
        assert!(
            drop.contains("DROP TABLE IF EXISTS"),
            "{}: missing DROP: {}",
            label(&dialect),
            drop
        );
        assert!(
            ctas.contains("CREATE TABLE"),
            "{}: missing CREATE TABLE: {}",
            ctas,
            label(&dialect)
        );
        assert!(ctas.contains("SUM("), "{}: missing SUM: {}", label(&dialect), ctas);
        assert!(
            ctas.contains("GROUP BY"),
            "{}: missing GROUP BY: {}",
            label(&dialect),
            ctas
        );
        // ClickHouse should have MergeTree
        if dialect == Dialect::ClickHouse {
            assert!(
                ctas.contains("MergeTree"),
                "ClickHouse CTAS should have MergeTree: {}",
                ctas
            );
        }
        // BigQuery/MySQL/Databricks/Domo should use backtick quoting
        if matches!(
            dialect,
            Dialect::BigQuery | Dialect::MySQL | Dialect::Databricks | Dialect::Domo
        ) {
            assert!(
                ctas.contains('`'),
                "{}: should use backtick quoting: {}",
                label(&dialect),
                ctas
            );
        }
        // Snowflake should uppercase
        if dialect == Dialect::Snowflake {
            assert!(
                ctas.contains("\"PREAGG\""),
                "Snowflake should uppercase schema: {}",
                ctas
            );
        }
    }
}

#[test]
fn test_manifest_create_sql_all_dialects() {
    for dialect in all_dialects() {
        let sql = generate_manifest_create_sql("preagg", &dialect);
        assert!(
            sql.contains("CREATE TABLE IF NOT EXISTS"),
            "{}: missing CREATE: {}",
            label(&dialect),
            sql
        );
        let sql_lower = sql.to_lowercase();
        assert!(
            sql_lower.contains("__manifest"),
            "{}: missing manifest: {}",
            label(&dialect),
            sql
        );
        // Check type names
        match dialect {
            Dialect::ClickHouse => {
                assert!(
                    sql.contains("String"),
                    "{}: missing String type: {}",
                    label(&dialect),
                    sql
                );
                assert!(
                    sql.contains("ReplacingMergeTree"),
                    "{}: missing engine: {}",
                    label(&dialect),
                    sql
                );
            }
            Dialect::BigQuery => {
                assert!(
                    sql.contains("STRING"),
                    "{}: missing STRING type: {}",
                    label(&dialect),
                    sql
                );
                assert!(
                    !sql.contains("PRIMARY KEY"),
                    "{}: BigQuery should not have PK: {}",
                    label(&dialect),
                    sql
                );
            }
            Dialect::SQLite => {
                assert!(
                    sql.contains("TEXT"),
                    "{}: missing TEXT type: {}",
                    label(&dialect),
                    sql
                );
                assert!(
                    sql.contains("UNIQUE"),
                    "{}: missing UNIQUE: {}",
                    label(&dialect),
                    sql
                );
            }
            _ => {
                assert!(
                    sql.contains("VARCHAR"),
                    "{}: missing VARCHAR type: {}",
                    label(&dialect),
                    sql
                );
                assert!(
                    sql.contains("PRIMARY KEY"),
                    "{}: missing PK: {}",
                    label(&dialect),
                    sql
                );
            }
        }
    }
}

#[test]
fn test_manifest_upsert_all_dialects() {
    let entry = ManifestEntry {
        view_name: "orders".into(),
        rollup_name: "by_region".into(),
        rollup_hash: "a1b2c3d4".into(),
        table_name: "preagg.orders__a1b2c3d4__20260416".into(),
        dimensions: vec!["region".into()],
        measures_json: "[]".into(),
        time_dimension: None,
        granularity: None,
        build_date: "2026-04-16".into(),
    };
    for dialect in all_dialects() {
        let stmts = generate_manifest_upsert_sql("preagg", &entry, &dialect);
        match dialect {
            Dialect::ClickHouse => {
                assert_eq!(stmts.len(), 1, "{}: ClickHouse should have 1 stmt", label(&dialect));
                assert!(
                    stmts[0].starts_with("INSERT INTO"),
                    "{}: should be INSERT: {}",
                    label(&dialect),
                    stmts[0]
                );
            }
            Dialect::SQLite => {
                assert_eq!(stmts.len(), 1, "{}: SQLite should have 1 stmt", label(&dialect));
                assert!(
                    stmts[0].contains("INSERT OR REPLACE"),
                    "{}: should be INSERT OR REPLACE: {}",
                    label(&dialect),
                    stmts[0]
                );
            }
            _ => {
                assert_eq!(stmts.len(), 2, "{}: should have DELETE + INSERT", label(&dialect));
                assert!(
                    stmts[0].contains("DELETE FROM"),
                    "{}: first should be DELETE: {}",
                    label(&dialect),
                    stmts[0]
                );
                assert!(
                    stmts[1].starts_with("INSERT INTO"),
                    "{}: second should be INSERT: {}",
                    label(&dialect),
                    stmts[1]
                );
            }
        }
    }
}

#[test]
fn test_warehouse_reagg_sql_all_dialects_basic() {
    let entry = test_local_rollup_entry(); // sum measure, region dim, month time dim
    let request = QueryRequest {
        measures: vec!["orders.total_revenue".to_string()],
        dimensions: vec!["orders.region".to_string()],
        ..QueryRequest::new()
    };
    for dialect in all_dialects() {
        let table = dialect.qualify_table("preagg", "orders__a1b2c3d4__20260416");
        let sql = generate_warehouse_reagg_sql(&request, &entry, &table, &dialect);

        // All dialects should have SELECT, FROM, GROUP BY
        assert!(
            sql.contains("SELECT"),
            "{}: missing SELECT: {}",
            label(&dialect),
            sql
        );
        assert!(
            sql.contains(&table),
            "{}: missing table name: {}",
            label(&dialect),
            sql
        );
        assert!(
            sql.contains("GROUP BY"),
            "{}: missing GROUP BY: {}",
            label(&dialect),
            sql
        );
        assert!(sql.contains("SUM("), "{}: missing SUM: {}", label(&dialect), sql);
    }
}

#[test]
fn test_warehouse_reagg_sql_all_dialects_time_coarser_gran() {
    let entry = test_local_rollup_entry(); // stored gran = "month"
    let request = QueryRequest {
        measures: vec!["orders.total_revenue".to_string()],
        time_dimensions: vec![TimeDimensionQuery {
            dimension: "orders.created_at".to_string(),
            granularity: Some("year".to_string()),
        }],
        ..QueryRequest::new()
    };
    for dialect in all_dialects() {
        let table = dialect.qualify_table("preagg", "orders__a1b2c3d4__20260416");
        let sql = generate_warehouse_reagg_sql(&request, &entry, &table, &dialect);

        // Should contain the dialect-specific date truncation
        match dialect {
            Dialect::MySQL | Dialect::Domo => {
                // MySQL uses DATE_FORMAT for year truncation
                assert!(
                    sql.contains("DATE_FORMAT("),
                    "{}: should use DATE_FORMAT for year: {}",
                    label(&dialect),
                    sql
                );
            }
            Dialect::BigQuery => {
                assert!(
                    sql.contains("TIMESTAMP_TRUNC("),
                    "{}: should use TIMESTAMP_TRUNC: {}",
                    label(&dialect),
                    sql
                );
                assert!(
                    sql.contains("YEAR"),
                    "{}: should have YEAR granularity: {}",
                    label(&dialect),
                    sql
                );
            }
            Dialect::ClickHouse => {
                assert!(
                    sql.contains("toStartOfYear("),
                    "{}: should use toStartOfYear: {}",
                    label(&dialect),
                    sql
                );
            }
            Dialect::Snowflake | Dialect::Presto => {
                assert!(
                    sql.contains("DATE_TRUNC('year'"),
                    "{}: should use DATE_TRUNC: {}",
                    label(&dialect),
                    sql
                );
            }
            _ => {
                // Postgres, DuckDB, Redshift, SQLite, Databricks — lowercase date_trunc
                assert!(
                    sql.contains("date_trunc('year'"),
                    "{}: should use date_trunc: {}",
                    label(&dialect),
                    sql
                );
            }
        }
    }
}

#[test]
fn test_warehouse_reagg_sql_all_dialects_average() {
    let entry = rich_local_rollup_entry();
    let request = QueryRequest {
        measures: vec!["orders.avg_price".to_string()],
        ..QueryRequest::new()
    };
    for dialect in all_dialects() {
        let table = dialect.qualify_table("preagg", "test");
        let sql = generate_warehouse_reagg_sql(&request, &entry, &table, &dialect);
        // All should use CAST + SUM/NULLIF pattern
        assert!(sql.contains("CAST("), "{}: missing CAST: {}", label(&dialect), sql);
        assert!(
            sql.contains("NULLIF("),
            "{}: missing NULLIF: {}",
            label(&dialect),
            sql
        );
        // Check dialect-specific cast type
        match dialect {
            Dialect::Postgres | Dialect::Redshift => {
                assert!(
                    sql.contains("DOUBLE PRECISION"),
                    "{}: should use DOUBLE PRECISION: {}",
                    label(&dialect),
                    sql
                );
            }
            Dialect::BigQuery => {
                assert!(
                    sql.contains("FLOAT64"),
                    "{}: should use FLOAT64: {}",
                    label(&dialect),
                    sql
                );
            }
            Dialect::ClickHouse => {
                assert!(
                    sql.contains("Float64"),
                    "{}: should use Float64: {}",
                    label(&dialect),
                    sql
                );
            }
            Dialect::MySQL | Dialect::Domo => {
                assert!(
                    sql.contains("DECIMAL(38,10)"),
                    "{}: should use DECIMAL: {}",
                    label(&dialect),
                    sql
                );
            }
            _ => {
                assert!(
                    sql.contains("AS DOUBLE)"),
                    "{}: should use DOUBLE: {}",
                    label(&dialect),
                    sql
                );
            }
        }
    }
}

#[test]
fn test_warehouse_reagg_sql_all_dialects_all_measure_types() {
    let entry = rich_local_rollup_entry();
    // Request all supported measure types
    let request = QueryRequest {
        measures: vec![
            "orders.total_revenue".to_string(),
            "orders.event_count".to_string(),
            "orders.avg_price".to_string(),
            "orders.max_amount".to_string(),
            "orders.min_amount".to_string(),
            "orders.unique_users".to_string(),
        ],
        dimensions: vec!["orders.region".to_string()],
        ..QueryRequest::new()
    };
    for dialect in all_dialects() {
        let table = dialect.qualify_table("preagg", "test");
        let sql = generate_warehouse_reagg_sql(&request, &entry, &table, &dialect);

        assert!(
            sql.contains("SUM("),
            "{}: missing SUM for sum/count: {}",
            label(&dialect),
            sql
        );
        assert!(sql.contains("MAX("), "{}: missing MAX: {}", label(&dialect), sql);
        assert!(sql.contains("MIN("), "{}: missing MIN: {}", label(&dialect), sql);
        assert!(
            sql.contains("COUNT(DISTINCT"),
            "{}: missing COUNT DISTINCT: {}",
            label(&dialect),
            sql
        );
        assert!(
            sql.contains("CAST("),
            "{}: missing CAST for avg: {}",
            label(&dialect),
            sql
        );
    }
}

#[test]
fn test_warehouse_reagg_sql_snowflake_uppercase() {
    let entry = test_local_rollup_entry();
    let request = QueryRequest {
        measures: vec!["orders.total_revenue".to_string()],
        dimensions: vec!["orders.region".to_string()],
        ..QueryRequest::new()
    };
    let table = Dialect::Snowflake.qualify_table("preagg", "orders__abc__20260416");
    let sql = generate_warehouse_reagg_sql(&request, &entry, &table, &Dialect::Snowflake);

    // Snowflake uppercases all identifiers
    assert!(
        sql.contains("\"REGION\""),
        "Snowflake should uppercase dimension: {}",
        sql
    );
    assert!(
        sql.contains("\"TOTAL_REVENUE__SUM\""),
        "Snowflake should uppercase measure col: {}",
        sql
    );
    assert!(
        sql.contains("\"ORDERS__TOTAL_REVENUE\""),
        "Snowflake should uppercase alias: {}",
        sql
    );
    assert!(
        sql.contains("\"PREAGG\""),
        "Snowflake should uppercase schema: {}",
        sql
    );
}

#[test]
fn test_create_schema_ddl_all_dialects() {
    for dialect in all_dialects() {
        let ddl = dialect.create_schema_ddl("preagg");
        match dialect {
            Dialect::BigQuery => {
                assert!(ddl.is_none(), "BigQuery should return None");
            }
            Dialect::ClickHouse => {
                let sql = ddl.unwrap();
                assert!(
                    sql.contains("CREATE DATABASE"),
                    "ClickHouse should use DATABASE: {}",
                    sql
                );
            }
            _ => {
                let sql = ddl.unwrap();
                assert!(
                    sql.contains("CREATE SCHEMA"),
                    "{}: should use SCHEMA: {}",
                    label(&dialect),
                    sql
                );
            }
        }
    }
}
