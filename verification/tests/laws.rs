//! One instance of each law, on concrete values.

use preagg::build_sql::{build_group_columns, generate_build_sql};
use preagg::coverage::{check_coverage, covers, find_measure_meta, is_coarser_or_equal, meta_type_of};
use preagg::dialect::Dialect;
use preagg::filter_sql::{build_reagg_where_clause, write_literal};
use preagg::hash::compute_rollup_hash;
use preagg::json::Json;
use preagg::manifest::{
    build_manifest_entry, generate_manifest_create_sql, generate_manifest_upsert_sql,
    LocalRollupEntry,
};
use preagg::query::{FilterOperator, QueryFilter, QueryRequest, TimeDimensionQuery};
use preagg::reagg_sql::{generate_reagg_sql, generate_warehouse_reagg_sql};
use preagg::rollup::{resolve_rollups, RollupMeasure, RollupSpec};
use preagg::schema::{Dimension, DimensionType, Measure, MeasureType, PreAggregation, ViewDef};
use preagg::text::to_decimal;

fn texts(list: &[&str]) -> Vec<String> {
    list.iter().map(|t| t.to_string()).collect()
}

fn measure(name: &str, measure_type: MeasureType, expr: Option<&str>) -> Measure {
    Measure {
        name: name.to_string(),
        measure_type,
        expr: expr.map(|e| e.to_string()),
    }
}

fn view() -> ViewDef {
    ViewDef {
        name: "orders".to_string(),
        table: Some("orders".to_string()),
        sql: None,
        dimensions: vec![
            Dimension {
                name: "region".to_string(),
                dimension_type: DimensionType::String,
                expr: "region".to_string(),
            },
            Dimension {
                name: "created_at".to_string(),
                dimension_type: DimensionType::Datetime,
                expr: "created_at".to_string(),
            },
        ],
        measures: Some(vec![
            measure("revenue", MeasureType::Sum, Some("amount")),
            measure("avg_price", MeasureType::Average, Some("price")),
            measure("users", MeasureType::CountDistinct, Some("user_id")),
            measure("visitors", MeasureType::CountDistinctApprox, Some("user_id")),
            measure("mid", MeasureType::Median, Some("amount")),
            measure("special", MeasureType::Custom, None),
        ]),
        pre_aggregations: None,
    }
}

/// The record of a rollup, as it comes back from the manifest.
fn record(view: &ViewDef, rollup: &RollupSpec) -> LocalRollupEntry {
    LocalRollupEntry {
        view_name: view.name.clone(),
        rollup_name: rollup.name.clone(),
        rollup_hash: rollup.hash.clone(),
        file: "f.parquet".to_string(),
        dimensions: rollup.dimensions.clone(),
        measures: rollup.measures.iter().map(recorded).collect(),
        time_dimension: rollup.time_dimension.clone(),
        granularity: rollup.granularity.clone(),
        build_date: "2026-04-15".to_string(),
    }
}

fn recorded(m: &RollupMeasure) -> Json {
    Json::Object(vec![
        ("name".to_string(), Json::Str(m.name.clone())),
        (
            "type".to_string(),
            Json::Str(m.measure_type.name().to_string()),
        ),
        (
            "columns".to_string(),
            Json::Array(m.columns.iter().map(|c| Json::Str(c.clone())).collect()),
        ),
    ])
}

fn default_record() -> LocalRollupEntry {
    let view = view();
    record(&view, &resolve_rollups(&view)[0])
}

fn by(granularity: Option<&str>) -> QueryRequest {
    QueryRequest {
        measures: texts(&["orders.revenue"]),
        dimensions: texts(&["orders.region"]),
        time_dimensions: vec![TimeDimensionQuery {
            dimension: "orders.created_at".to_string(),
            granularity: granularity.map(|g| g.to_string()),
        }],
        ..QueryRequest::new()
    }
}

#[test]
fn hash_ignores_order_but_not_content() {
    let a = compute_rollup_hash(&texts(&["x", "y"]), &texts(&["m", "n"]), Some("t"), None);
    let b = compute_rollup_hash(&texts(&["y", "x"]), &texts(&["n", "m"]), Some("t"), None);
    let c = compute_rollup_hash(&texts(&["x", "y"]), &texts(&["m", "n"]), None, Some("t"));
    assert_eq!(a, b);
    assert_ne!(a, c);
    assert!(a.chars().all(|ch| ch.is_ascii_hexdigit() && !ch.is_ascii_uppercase()));
}

#[test]
fn type_names_are_read() {
    for t in [
        MeasureType::Sum,
        MeasureType::Count,
        MeasureType::Average,
        MeasureType::Min,
        MeasureType::Max,
        MeasureType::CountDistinct,
        MeasureType::CountDistinctApprox,
        MeasureType::Median,
        MeasureType::Number,
        MeasureType::Custom,
    ] {
        assert_eq!(MeasureType::from_name(t.name()), Some(t));
    }
    assert_eq!(MeasureType::from_name("Sum"), None);
}

#[test]
fn decimals_are_read() {
    for n in [0u64, 7, 10, 99, 100, 65536] {
        assert_eq!(to_decimal(n).parse::<u64>().unwrap(), n);
    }
}

#[test]
fn strings_close_where_they_were_closed() {
    let written = write_literal("a'; DROP TABLE t; --'");
    assert_eq!(written, "'a''; DROP TABLE t; --'''");
    let inner = &written[1..written.len() - 1];
    assert_eq!(inner.replace("''", "'"), "a'; DROP TABLE t; --'");
}

#[test]
fn dates_lose_their_dashes_again() {
    let view = view();
    let rollup = &resolve_rollups(&view)[0];
    let entry = build_manifest_entry(&view, rollup, "pre", "20260415");
    assert_eq!(entry.build_date.replace('-', ""), "20260415");
}

#[test]
fn a_later_record_replaces_the_earlier() {
    let view = view();
    let rollup = &resolve_rollups(&view)[0];
    let later = build_manifest_entry(&view, rollup, "pre", "20260416");
    let statements = generate_manifest_upsert_sql("pre", &later, &Dialect::Postgres);
    assert_eq!(
        statements[0],
        "DELETE FROM \"pre\".\"__manifest\" WHERE view_name = 'orders' AND rollup_name = 'default'"
    );
    assert!(generate_manifest_create_sql("pre", &Dialect::SQLite).contains("UNIQUE"));
}

#[test]
fn granularities_form_an_order() {
    assert!(is_coarser_or_equal("month", "month"));
    assert!(is_coarser_or_equal("year", "month") && is_coarser_or_equal("month", "day"));
    assert!(is_coarser_or_equal("year", "day"));
    assert!(!is_coarser_or_equal("day", "year"));
}

#[test]
fn the_first_rollup_that_covers_is_chosen() {
    let miss = LocalRollupEntry {
        dimensions: vec![],
        rollup_name: "miss".to_string(),
        ..default_record()
    };
    let second = LocalRollupEntry {
        rollup_name: "second".to_string(),
        ..default_record()
    };
    let rollups = [miss, default_record(), second];
    assert_eq!(
        check_coverage(&by(None), &rollups).unwrap().rollup_name,
        "default"
    );
    assert!(check_coverage(&by(None), &rollups[..1]).is_none());
}

#[test]
fn members_of_another_view_are_not_covered() {
    let request = QueryRequest {
        measures: texts(&["orders.revenue"]),
        dimensions: texts(&["users.region"]),
        ..QueryRequest::new()
    };
    assert!(!covers(&request, &default_record()));
    let bare = QueryRequest {
        measures: texts(&["revenue"]),
        dimensions: texts(&["region"]),
        ..QueryRequest::new()
    };
    assert!(covers(&bare, &default_record()));
}

#[test]
fn measures_that_do_not_compose_are_refused() {
    let view = ViewDef {
        pre_aggregations: Some(vec![PreAggregation {
            name: "p".to_string(),
            dimensions: vec![],
            measures: texts(&["revenue", "mid", "special"]),
            time_dimension: None,
            granularity: None,
        }]),
        ..view()
    };
    let entry = record(&view, &resolve_rollups(&view)[0]);
    for (name, covered) in [("revenue", true), ("mid", false), ("special", false)] {
        let request = QueryRequest {
            measures: texts(&[name]),
            ..QueryRequest::new()
        };
        assert_eq!(covers(&request, &entry), covered, "{}", name);
    }
}

#[test]
fn an_unknown_type_is_covered_and_null() {
    let entry = LocalRollupEntry {
        measures: vec![Json::Object(vec![
            ("name".to_string(), Json::Str("odd".to_string())),
            ("type".to_string(), Json::Str("harmonic_mean".to_string())),
        ])],
        ..default_record()
    };
    let request = QueryRequest {
        measures: texts(&["odd"]),
        ..QueryRequest::new()
    };
    assert!(covers(&request, &entry));
    assert!(generate_reagg_sql(&request, &entry, "f").contains("NULL AS \"odd\""));
}

#[test]
fn coarser_queries_are_covered_too() {
    let entry = default_record();
    assert!(covers(&by(Some("day")), &entry));
    assert!(covers(&by(Some("month")), &entry));
    assert!(covers(&by(Some("year")), &entry));
    assert!(!covers(&by(Some("hour")), &entry));
    assert!(covers(&by(None), &entry));
}

#[test]
fn covered_queries_have_a_column_for_each_member() {
    let entry = default_record();
    let request = by(Some("month"));
    assert!(covers(&request, &entry));
    let sql = generate_reagg_sql(&request, &entry, "f");
    for alias in ["orders__region", "orders__created_at", "orders__revenue"] {
        assert_eq!(sql.matches(&format!(" AS \"{}\"", alias)).count(), 1);
    }
}

#[test]
fn a_wanted_granularity_that_is_not_stored_is_left_out() {
    let entry = LocalRollupEntry {
        granularity: None,
        ..default_record()
    };
    let request = by(Some("month"));
    assert!(covers(&request, &entry));
    assert!(!generate_reagg_sql(&request, &entry, "f").contains("orders__created_at"));
}

#[test]
fn both_tiers_select_the_same_columns() {
    let entry = default_record();
    let request = QueryRequest {
        measures: texts(&["orders.revenue", "orders.avg_price", "orders.users"]),
        ..by(Some("year"))
    };
    assert!(covers(&request, &entry));
    let local = generate_reagg_sql(&request, &entry, "f");
    let warehouse = generate_warehouse_reagg_sql(&request, &entry, "t", &Dialect::DuckDB);
    assert_eq!(
        local.split("\nFROM").next().unwrap(),
        warehouse.split("\nFROM").next().unwrap()
    );
}

#[test]
fn covered_queries_keep_their_filters() {
    let entry = default_record();
    let filters = || {
        vec![
            QueryFilter {
                member: Some("orders.region".to_string()),
                operator: Some(FilterOperator::Equals),
                values: texts(&["US"]),
                and: None,
                or: None,
            },
            QueryFilter {
                member: Some("orders.created_at".to_string()),
                operator: Some(FilterOperator::Gte),
                values: texts(&["2026-01-01"]),
                and: None,
                or: None,
            },
        ]
    };
    let request = QueryRequest {
        filters: filters(),
        ..by(None)
    };
    assert!(covers(&request, &entry));
    assert_eq!(
        build_reagg_where_clause(&request, &entry, &Dialect::DuckDB),
        "\nWHERE \"region\" = 'US' AND \"created_at__day\" >= '2026-01-01'"
    );
}

#[test]
fn a_covered_range_of_dates_is_not_put_in_sql() {
    let entry = default_record();
    let request = QueryRequest {
        filters: vec![QueryFilter {
            member: Some("orders.created_at".to_string()),
            operator: Some(FilterOperator::InDateRange),
            values: texts(&["2026-01-01", "2026-02-01"]),
            and: None,
            or: None,
        }],
        ..by(None)
    };
    assert!(covers(&request, &entry));
    assert_eq!(
        build_reagg_where_clause(&request, &entry, &Dialect::DuckDB),
        ""
    );
}

#[test]
fn recorded_measures_are_read() {
    let view = view();
    let rollup = &resolve_rollups(&view)[0];
    let entry = record(&view, rollup);
    for m in &rollup.measures {
        let meta = find_measure_meta(&entry.measures, &m.name).unwrap();
        assert_eq!(meta_type_of(meta), Some(m.measure_type));
        assert_eq!(meta.get_strings("columns"), m.columns);
    }
    assert!(find_measure_meta(&entry.measures, "mid").is_none());
}

#[test]
fn recorded_columns_are_in_the_table() {
    let view = ViewDef {
        pre_aggregations: Some(vec![PreAggregation {
            name: "p".to_string(),
            dimensions: texts(&["region"]),
            measures: texts(&["revenue", "avg_price", "users", "visitors", "mid", "special"]),
            time_dimension: Some("created_at".to_string()),
            granularity: Some("week".to_string()),
        }]),
        ..view()
    };
    let rollup = &resolve_rollups(&view)[0];
    let create = &generate_build_sql(&view, rollup, "pre", "20260415", &Dialect::Postgres)[1];
    for m in &rollup.measures {
        for column in &m.columns {
            assert_eq!(
                create.matches(&format!(" AS \"{}\"", column)).count(),
                1,
                "{}",
                column
            );
        }
    }
    assert!(create.contains(" AS \"region\""));
    assert!(create.contains("date_trunc('week', created_at) AS \"created_at__week\""));
}

#[test]
fn measures_are_put_together_again() {
    let entry = default_record();
    let request = QueryRequest {
        measures: texts(&["revenue", "avg_price", "users", "visitors"]),
        ..QueryRequest::new()
    };
    assert_eq!(
        generate_warehouse_reagg_sql(&request, &entry, "t", &Dialect::ClickHouse),
        "SELECT SUM(\"revenue__sum\") AS \"revenue\", \
         CAST(SUM(\"avg_price__sum\") AS Float64) / NULLIF(SUM(\"avg_price__count\"), 0) \
         AS \"avg_price\", COUNT(DISTINCT \"user_id\") AS \"users\", \
         COUNT(DISTINCT \"user_id\") AS \"visitors\"\nFROM t"
    );
}

#[test]
fn group_columns_come_first() {
    let view = view();
    let rollup = &resolve_rollups(&view)[0];
    let columns = build_group_columns(&view, rollup, &Dialect::Postgres);
    let create = &generate_build_sql(&view, rollup, "pre", "20260415", &Dialect::Postgres)[1];
    let listed: Vec<String> = columns
        .iter()
        .map(|c| format!("{} AS {}", c.expr, c.alias))
        .collect();
    assert_eq!(columns.len(), 3);
    assert!(create.contains(&format!("SELECT\n    {},", listed.join(",\n    "))));
    assert!(create.ends_with("GROUP BY 1, 2, 3"));
}

#[test]
fn build_and_manifest_name_the_same_table() {
    let view = view();
    let rollup = &resolve_rollups(&view)[0];
    let entry = build_manifest_entry(&view, rollup, "pre", "20260415");
    let statements = generate_build_sql(&view, rollup, "pre", "20260415", &Dialect::Postgres);
    let quoted = format!("\"{}\"", entry.table_name.replace('.', "\".\""));
    assert_eq!(statements[0], format!("DROP TABLE IF EXISTS {}", quoted));
    assert!(statements[1].starts_with(&format!("CREATE TABLE {} AS", quoted)));
}

#[test]
fn rollups_hold_what_they_should() {
    let view = view();
    let default = &resolve_rollups(&view)[0];
    let names: Vec<&str> = default.measures.iter().map(|m| m.name.as_str()).collect();
    assert_eq!(names, vec!["revenue", "avg_price", "users", "visitors"]);
    assert_eq!(default.dimensions, texts(&["region"]));
    assert_eq!(default.time_dimension.as_deref(), Some("created_at"));
    let explicit = ViewDef {
        pre_aggregations: Some(vec![PreAggregation {
            name: "p".to_string(),
            dimensions: vec![],
            measures: texts(&["mid", "nothing", "revenue"]),
            time_dimension: None,
            granularity: None,
        }]),
        ..view
    };
    let names: Vec<String> = resolve_rollups(&explicit)[0]
        .measures
        .iter()
        .map(|m| m.name.clone())
        .collect();
    assert_eq!(names, texts(&["mid", "revenue"]));
}

#[test]
fn the_default_rollup_answers_its_view() {
    let entry = default_record();
    let request = QueryRequest {
        measures: texts(&["orders.revenue", "orders.visitors"]),
        ..by(Some("quarter"))
    };
    assert!(covers(&request, &entry));
    let median = QueryRequest {
        measures: texts(&["orders.mid"]),
        ..by(None)
    };
    assert!(!covers(&median, &entry));
    let time_as_dimension = QueryRequest {
        dimensions: texts(&["orders.created_at"]),
        ..QueryRequest::new()
    };
    assert!(!covers(&time_as_dimension, &entry));
}

#[test]
fn rollups_are_named_by_their_hash() {
    let explicit = ViewDef {
        pre_aggregations: Some(vec![PreAggregation {
            name: "p".to_string(),
            dimensions: texts(&["region"]),
            measures: texts(&["users", "nothing", "revenue"]),
            time_dimension: None,
            granularity: Some("day".to_string()),
        }]),
        ..view()
    };
    for view in [view(), explicit] {
        let rollup = &resolve_rollups(&view)[0];
        let names: Vec<String> = rollup.measures.iter().map(|m| m.name.clone()).collect();
        assert_eq!(
            rollup.hash,
            compute_rollup_hash(
                &rollup.dimensions,
                &names,
                rollup.time_dimension.as_deref(),
                rollup.granularity.as_deref(),
            )
        );
    }
}
