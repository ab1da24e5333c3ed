//! The records of built rollups.

use vstd::prelude::*;

use crate::build_sql::{table_name, write_table_name};
use crate::dialect::Dialect;
use crate::filter_sql::{literal, literals, write_literal};
use crate::hash::or_empty;
use crate::json::{
    json_text, row_array, rows_to_json, text_array, texts_to_json, Json, JsonModel,
};
use crate::rollup::{RollupMeasure, RollupMeasureModel, RollupModel, RollupSpec};
use crate::schema::{ViewDef, ViewModel};
use crate::text::{
    characters, copy_option, copy_texts, enclose, from_characters, join, joined,
    lemma_replaced_absent, lemma_replaced_concat, push_text, replaced, suffixed, Text,
};

verus! {

/// An entry of the local cache: a rollup that was pulled from the warehouse.
#[derive(Clone, Debug)]
pub struct LocalRollupEntry {
    pub view_name: String,
    pub rollup_name: String,
    pub rollup_hash: String,
    pub file: String,
    pub dimensions: Vec<String>,
    /// One object for each measure, with `name`, `type` and `columns`.
    pub measures: Vec<Json>,
    pub time_dimension: Option<String>,
    pub granularity: Option<String>,
    pub build_date: String,
}

/// What a `LocalRollupEntry` says.
pub ghost struct EntryModel {
    pub view_name: Text,
    pub rollup_name: Text,
    pub rollup_hash: Text,
    pub file: Text,
    pub dimensions: Seq<Text>,
    pub measures: Seq<JsonModel>,
    pub time_dimension: Option<Text>,
    pub granularity: Option<Text>,
    pub build_date: Text,
}

impl DeepView for LocalRollupEntry {
    type V = EntryModel;

    open spec fn deep_view(&self) -> EntryModel {
        EntryModel {
            view_name: self.view_name@,
            rollup_name: self.rollup_name@,
            rollup_hash: self.rollup_hash@,
            file: self.file@,
            dimensions: self.dimensions.deep_view(),
            measures: self.measures.deep_view(),
            time_dimension: self.time_dimension.deep_view(),
            granularity: self.granularity.deep_view(),
            build_date: self.build_date@,
        }
    }
}

/// The manifest of the local cache.
#[derive(Clone, Debug)]
pub struct LocalManifest {
    pub pulled_at: String,
    pub source_database: String,
    pub rollups: Vec<LocalRollupEntry>,
}

/// A row of the warehouse's manifest table.
#[derive(Clone, Debug)]
pub struct ManifestEntry {
    pub view_name: String,
    pub rollup_name: String,
    pub rollup_hash: String,
    pub table_name: String,
    pub dimensions: Vec<String>,
    pub measures_json: String,
    pub time_dimension: Option<String>,
    pub granularity: Option<String>,
    pub build_date: String,
}

/// What a `ManifestEntry` says.
pub ghost struct ManifestModel {
    pub view_name: Text,
    pub rollup_name: Text,
    pub rollup_hash: Text,
    pub table_name: Text,
    pub dimensions: Seq<Text>,
    pub measures_json: Text,
    pub time_dimension: Option<Text>,
    pub granularity: Option<Text>,
    pub build_date: Text,
}

impl DeepView for ManifestEntry {
    type V = ManifestModel;

    open spec fn deep_view(&self) -> ManifestModel {
        ManifestModel {
            view_name: self.view_name@,
            rollup_name: self.rollup_name@,
            rollup_hash: self.rollup_hash@,
            table_name: self.table_name@,
            dimensions: self.dimensions.deep_view(),
            measures_json: self.measures_json@,
            time_dimension: self.time_dimension.deep_view(),
            granularity: self.granularity.deep_view(),
            build_date: self.build_date@,
        }
    }
}

/// The name of the manifest's table.
pub open spec fn manifest_table(schema: Text, dialect: Dialect) -> Text {
    dialect.qualified(schema, "__manifest"@)
}

/// The columns of the manifest's table, with the types of texts and dates.
pub open spec fn manifest_columns(text_type: Text, date_type: Text) -> Text {
    " (\n    view_name "@ + text_type + ",\n    rollup_name "@ + text_type
        + ",\n    rollup_hash "@ + text_type + ",\n    table_name "@ + text_type
        + ",\n    dimensions "@ + text_type + ",\n    measures "@ + text_type
        + ",\n    time_dimension "@ + text_type + ",\n    granularity "@ + text_type
        + ",\n    build_date "@ + date_type
}

/// The statement that makes the manifest's table exist. Each dialect keeps one
/// row for a view and rollup in its own way; BigQuery has no keys.
pub open spec fn manifest_create(schema: Text, dialect: Dialect) -> Text {
    "CREATE TABLE IF NOT EXISTS "@ + manifest_table(schema, dialect) + match dialect {
        Dialect::ClickHouse => manifest_columns("String"@, "Date"@)
            + "\n) ENGINE = ReplacingMergeTree(build_date)\nORDER BY (view_name, rollup_name)"@,
        Dialect::BigQuery => manifest_columns("STRING"@, "DATE"@) + "\n)"@,
        Dialect::SQLite => manifest_columns("TEXT"@, "TEXT"@)
            + ",\n    UNIQUE (view_name, rollup_name)\n)"@,
        _ => manifest_columns("VARCHAR"@, "DATE"@)
            + ",\n    PRIMARY KEY (view_name, rollup_name)\n)"@,
    }
}

/// The row of an entry, as SQL strings between brackets.
pub open spec fn manifest_row(entry: ManifestModel, dimensions_json: Text) -> Text {
    "("@ + joined(
        literals(
            seq![
                entry.view_name,
                entry.rollup_name,
                entry.rollup_hash,
                entry.table_name,
                dimensions_json,
                entry.measures_json,
                or_empty(entry.time_dimension),
                or_empty(entry.granularity),
                entry.build_date,
            ],
        ),
        ", "@,
    ) + ")"@
}

/// `verb table (columns) VALUES row`.
pub open spec fn insert_statement(verb: Text, table: Text, row: Text) -> Text {
    verb + table + " (view_name, rollup_name, rollup_hash, table_name, dimensions, measures, time_dimension, granularity, build_date) VALUES "@
        + row
}

/// The statement that removes the row of a view and rollup.
pub open spec fn delete_statement(table: Text, view_name: Text, rollup_name: Text) -> Text {
    "DELETE FROM "@ + table + " WHERE view_name = "@ + literal(view_name) + " AND rollup_name = "@
        + literal(rollup_name)
}

/// The statements that record an entry in place of an earlier one for the same
/// view and rollup. ClickHouse merges rows and SQLite replaces them; the others
/// remove the old row first.
pub open spec fn upsert_statements(
    schema: Text,
    entry: ManifestModel,
    dimensions_json: Text,
    dialect: Dialect,
) -> Seq<Text> {
    let table = manifest_table(schema, dialect);
    let row = manifest_row(entry, dimensions_json);
    match dialect {
        Dialect::ClickHouse => seq![insert_statement("INSERT INTO "@, table, row)],
        Dialect::SQLite => seq![insert_statement("INSERT OR REPLACE INTO "@, table, row)],
        _ => seq![
            delete_statement(table, entry.view_name, entry.rollup_name),
            insert_statement("INSERT INTO "@, table, row),
        ],
    }
}

/// Whether a date is written as eight digits.
pub open spec fn is_compact_date(date: Text) -> bool {
    date.len() == 8 && forall|i: int| 0 <= i < date.len() ==> '0' <= #[trigger] date[i] <= '9'
}

/// A date as a `DATE` column takes it: `YYYYMMDD` becomes `YYYY-MM-DD`, and
/// anything else stays as it is.
pub open spec fn sql_date(date: Text) -> Text {
    if is_compact_date(date) {
        date.subrange(0, 4) + "-"@ + date.subrange(4, 6) + "-"@ + date.subrange(6, 8)
    } else {
        date
    }
}

/// The keys of a measure's object in the manifest.
pub open spec fn measure_keys() -> (Text, Text, Text) {
    ("name"@, "type"@, "columns"@)
}

/// What the manifest says of a measure.
pub open spec fn measure_row(m: RollupMeasureModel) -> (Text, Text, Seq<Text>) {
    (m.name, m.measure_type.label(), m.columns)
}

/// The measures of a rollup as the manifest lists them.
pub open spec fn measures_value(measures: Seq<RollupMeasureModel>) -> JsonModel {
    row_array(measure_keys(), measures.map_values(|m: RollupMeasureModel| measure_row(m)))
}

/// The manifest's entry for a rollup, given the JSON text of its measures.
pub open spec fn manifest_entry(
    view: ViewModel,
    rollup: RollupModel,
    schema: Text,
    date: Text,
    measures_json: Text,
) -> ManifestModel {
    ManifestModel {
        view_name: view.name,
        rollup_name: rollup.name,
        rollup_hash: rollup.hash,
        table_name: schema + "."@ + table_name(view.name, rollup.hash, date),
        dimensions: rollup.dimensions,
        measures_json,
        time_dimension: rollup.time_dimension,
        granularity: rollup.granularity,
        build_date: sql_date(date),
    }
}

fn write_manifest_columns(text_type: &str, date_type: &str) -> (r: String)
    ensures
        r@ == manifest_columns(text_type@, date_type@),
{
    let mut r = " (\n    view_name ".to_string();
    r.append(text_type);
    r.append(",\n    rollup_name ");
    r.append(text_type);
    r.append(",\n    rollup_hash ");
    r.append(text_type);
    r.append(",\n    table_name ");
    r.append(text_type);
    r.append(",\n    dimensions ");
    r.append(text_type);
    r.append(",\n    measures ");
    r.append(text_type);
    r.append(",\n    time_dimension ");
    r.append(text_type);
    r.append(",\n    granularity ");
    r.append(text_type);
    r.append(",\n    build_date ");
    r.append(date_type);
    r
}

/// Generates the statement that makes the manifest's table exist.
pub fn generate_manifest_create_sql(schema: &str, dialect: &Dialect) -> (r: String)
    ensures
        r@ == manifest_create(schema@, *dialect),
{
    let table = dialect.qualify_table(schema, "__manifest");
    let mut r = suffixed("CREATE TABLE IF NOT EXISTS ", table.as_str());
    let body = match dialect {
        Dialect::ClickHouse => suffixed(
            write_manifest_columns("String", "Date").as_str(),
            "\n) ENGINE = ReplacingMergeTree(build_date)\nORDER BY (view_name, rollup_name)",
        ),
        // BigQuery calls texts STRING.
        Dialect::BigQuery => suffixed(write_manifest_columns("STRING", "DATE").as_str(), "\n)"),
        // SQLite takes no composite key in a column's definition.
        Dialect::SQLite => suffixed(
            write_manifest_columns("TEXT", "TEXT").as_str(),
            ",\n    UNIQUE (view_name, rollup_name)\n)",
        ),
        _ => suffixed(
            write_manifest_columns("VARCHAR", "DATE").as_str(),
            ",\n    PRIMARY KEY (view_name, rollup_name)\n)",
        ),
    };
    r.append(body.as_str());
    r
}

fn write_manifest_row(entry: &ManifestEntry, dimensions_json: &str) -> (r: String)
    ensures
        r@ == manifest_row(entry.deep_view(), dimensions_json@),
{
    let mut values: Vec<String> = Vec::new();
    push_text(&mut values, write_literal(entry.view_name.as_str()));
    push_text(&mut values, write_literal(entry.rollup_name.as_str()));
    push_text(&mut values, write_literal(entry.rollup_hash.as_str()));
    push_text(&mut values, write_literal(entry.table_name.as_str()));
    push_text(&mut values, write_literal(dimensions_json));
    push_text(&mut values, write_literal(entry.measures_json.as_str()));
    push_text(&mut values, write_literal(or_empty_text(&entry.time_dimension).as_str()));
    push_text(&mut values, write_literal(or_empty_text(&entry.granularity).as_str()));
    push_text(&mut values, write_literal(entry.build_date.as_str()));
    let ghost e = entry.deep_view();
    assert(values.deep_view() =~= literals(
        seq![
            e.view_name,
            e.rollup_name,
            e.rollup_hash,
            e.table_name,
            dimensions_json@,
            e.measures_json,
            or_empty(e.time_dimension),
            or_empty(e.granularity),
            e.build_date,
        ],
    ));
    enclose("(", join(&values, ", ").as_str(), ")")
}

fn or_empty_text(s: &Option<String>) -> (r: String)
    ensures
        r@ == or_empty(s.deep_view()),
{
    match s {
        Some(text) => text.clone(),
        None => String::new(),
    }
}

fn write_insert(verb: &str, table: &str, row: &str) -> (r: String)
    ensures
        r@ == insert_statement(verb@, table@, row@),
{
    let mut r = enclose(
        verb,
        table,
        " (view_name, rollup_name, rollup_hash, table_name, dimensions, measures, time_dimension, granularity, build_date) VALUES ",
    );
    r.append(row);
    r
}

fn write_delete(table: &str, view_name: &str, rollup_name: &str) -> (r: String)
    ensures
        r@ == delete_statement(table@, view_name@, rollup_name@),
{
    let mut r = enclose("DELETE FROM ", table, " WHERE view_name = ");
    r.append(write_literal(view_name).as_str());
    r.append(" AND rollup_name = ");
    r.append(write_literal(rollup_name).as_str());
    r
}

/// Generates the statements that record an entry whose dimensions are written in
/// JSON as `dimensions_json`.
pub fn manifest_upsert_statements(
    schema: &str,
    entry: &ManifestEntry,
    dimensions_json: &str,
    dialect: &Dialect,
) -> (statements: Vec<String>)
    ensures
        statements.deep_view() == upsert_statements(
            schema@,
            entry.deep_view(),
            dimensions_json@,
            *dialect,
        ),
{
    let table = dialect.qualify_table(schema, "__manifest");
    let row = write_manifest_row(entry, dimensions_json);
    let mut statements: Vec<String> = Vec::new();
    match dialect {
        Dialect::ClickHouse => {
            push_text(&mut statements, write_insert("INSERT INTO ", table.as_str(), row.as_str()));
        },
        Dialect::SQLite => {
            push_text(
                &mut statements,
                write_insert("INSERT OR REPLACE INTO ", table.as_str(), row.as_str()),
            );
        },
        _ => {
            push_text(
                &mut statements,
                write_delete(
                    table.as_str(),
                    entry.view_name.as_str(),
                    entry.rollup_name.as_str(),
                ),
            );
            push_text(&mut statements, write_insert("INSERT INTO ", table.as_str(), row.as_str()));
        },
    }
    assert(statements.deep_view() =~= upsert_statements(
        schema@,
        entry.deep_view(),
        dimensions_json@,
        *dialect,
    ));
    statements
}

/// Generates the statements that record an entry.
pub fn generate_manifest_upsert_sql(
    schema: &str,
    entry: &ManifestEntry,
    dialect: &Dialect,
) -> (statements: Vec<String>)
    ensures
        statements.deep_view() == upsert_statements(
            schema@,
            entry.deep_view(),
            json_text(text_array(entry.deep_view().dimensions)),
            *dialect,
        ),
{
    let dimensions_json = texts_to_json(&entry.dimensions);
    manifest_upsert_statements(schema, entry, dimensions_json.as_str(), dialect)
}

/// Writes a date as a `DATE` column takes it.
fn write_sql_date(date: &str) -> (r: String)
    ensures
        r@ == sql_date(date@),
{
    let chars = characters(date);
    if chars.len() != 8 {
        return date.to_string();
    }
    let mut i: usize = 0;
    while i < chars.len()
        invariant
            i <= chars@.len(),
            chars@ == date@,
            forall|j: int| 0 <= j < i ==> '0' <= #[trigger] date@[j] <= '9',
        decreases chars@.len() - i,
    {
        if !('0' <= chars[i] && chars[i] <= '9') {
            assert(!('0' <= date@[i as int] <= '9'));
            return date.to_string();
        }
        i += 1;
    }
    let mut r = from_characters(&chars, 0, 4);
    r.append("-");
    r.append(from_characters(&chars, 4, 6).as_str());
    r.append("-");
    r.append(from_characters(&chars, 6, 8).as_str());
    r
}

/// Writes the measures of a rollup as the manifest lists them.
fn write_measures(measures: &Vec<RollupMeasure>) -> (r: String)
    ensures
        r@ == json_text(measures_value(measures.deep_view())),
{
    let ghost all = measures.deep_view().map_values(|m: RollupMeasureModel| measure_row(m));
    let mut rows: Vec<(String, String, Vec<String>)> = Vec::new();
    let mut i: usize = 0;
    assert(rows.deep_view() =~= all.take(0));
    while i < measures.len()
        invariant
            i <= measures@.len(),
            all == measures.deep_view().map_values(|m: RollupMeasureModel| measure_row(m)),
            rows.deep_view() == all.take(i as int),
        decreases measures@.len() - i,
    {
        let m = &measures[i];
        let ghost before = rows.deep_view();
        let row = (m.name.clone(), m.measure_type.name().to_string(), copy_texts(&m.columns));
        rows.push(row);
        i += 1;
        assert(rows.deep_view() =~= before.push(row.deep_view()));
        assert(rows.deep_view() =~= all.take(i as int));
    }
    assert(rows.deep_view() =~= all);
    proof {
        reveal_strlit("name");
        reveal_strlit("type");
        reveal_strlit("columns");
        assert("name"@[0] != "type"@[0]);
        assert("name"@.len() == 4 && "type"@.len() == 4 && "columns"@.len() == 7);
    }
    rows_to_json(("name", "type", "columns"), &rows)
}

/// Makes the manifest's entry for a rollup whose measures are written in JSON as
/// `measures_json`.
pub fn manifest_entry_with(
    view: &ViewDef,
    rollup: &RollupSpec,
    schema: &str,
    date_str: &str,
    measures_json: String,
) -> (r: ManifestEntry)
    ensures
        r.deep_view() == manifest_entry(
            view.deep_view(),
            rollup.deep_view(),
            schema@,
            date_str@,
            measures_json@,
        ),
{
    let table = write_table_name(view.name.as_str(), rollup.hash.as_str(), date_str);
    ManifestEntry {
        view_name: view.name.clone(),
        rollup_name: rollup.name.clone(),
        rollup_hash: rollup.hash.clone(),
        table_name: enclose(schema, ".", table.as_str()),
        dimensions: copy_texts(&rollup.dimensions),
        measures_json,
        time_dimension: copy_option(&rollup.time_dimension),
        granularity: copy_option(&rollup.granularity),
        build_date: write_sql_date(date_str),
    }
}

/// Makes the manifest's entry for a rollup.
pub fn build_manifest_entry(
    view: &ViewDef,
    rollup: &RollupSpec,
    schema: &str,
    date_str: &str,
) -> (r: ManifestEntry)
    ensures
        r.deep_view() == manifest_entry(
            view.deep_view(),
            rollup.deep_view(),
            schema@,
            date_str@,
            json_text(measures_value(rollup.deep_view().measures)),
        ),
{
    let measures_json = write_measures(&rollup.measures);
    manifest_entry_with(view, rollup, schema, date_str, measures_json)
}

/// A date without dashes reads back from its form for a `DATE` column when the
/// dashes are taken out.
pub proof fn dates_read_back(date: Text)
    requires
        !date.contains('-'),
    ensures
        replaced(sql_date(date), '-', Seq::empty()) == date,
{
    lemma_replaced_absent(date, '-', Seq::empty());
    if is_compact_date(date) {
        reveal_strlit("-");
        let year = date.subrange(0, 4);
        let month = date.subrange(4, 6);
        let day = date.subrange(6, 8);
        lemma_replaced_concat(year + "-"@ + month + "-"@, day, '-', Seq::empty());
        lemma_replaced_concat(year + "-"@ + month, "-"@, '-', Seq::empty());
        lemma_replaced_concat(year + "-"@, month, '-', Seq::empty());
        lemma_replaced_concat(year, "-"@, '-', Seq::empty());
        assert(replaced("-"@.drop_last(), '-', Seq::empty()) =~= Seq::empty());
        assert(replaced("-"@, '-', Seq::empty()) =~= Seq::empty());
        lemma_replaced_absent(year, '-', Seq::empty());
        lemma_replaced_absent(month, '-', Seq::empty());
        lemma_replaced_absent(day, '-', Seq::empty());
        assert(replaced(sql_date(date), '-', Seq::empty()) =~= date);
    }
}

/// A later record of the same view and rollup takes the place of an earlier
/// one: ClickHouse merges rows with the same key, SQLite replaces them, and the
/// other dialects first remove the row of the earlier record.
pub proof fn rebuilds_replace_the_record(
    schema: Text,
    earlier: ManifestModel,
    later: ManifestModel,
    dimensions_json: Text,
    dialect: Dialect,
)
    requires
        earlier.view_name == later.view_name,
        earlier.rollup_name == later.rollup_name,
    ensures
        ({
            let statements = upsert_statements(schema, later, dimensions_json, dialect);
            let table = manifest_table(schema, dialect);
            let created = manifest_create(schema, dialect);
            match dialect {
                Dialect::ClickHouse => statements.len() == 1
                    && "\n) ENGINE = ReplacingMergeTree(build_date)\nORDER BY (view_name, rollup_name)"@.is_suffix_of(
                created),
                Dialect::SQLite => statements.len() == 1 && ("INSERT OR REPLACE INTO "@
                    + table).is_prefix_of(statements[0])
                    && ",\n    UNIQUE (view_name, rollup_name)\n)"@.is_suffix_of(created),
                _ => statements.len() == 2 && statements[0] == delete_statement(
                    table,
                    earlier.view_name,
                    earlier.rollup_name,
                ) && ("INSERT INTO "@ + table).is_prefix_of(statements[1]),
            }
        }),
{
    let statements = upsert_statements(schema, later, dimensions_json, dialect);
    let table = manifest_table(schema, dialect);
    let created = manifest_create(schema, dialect);
    match dialect {
        Dialect::ClickHouse => {
            let tail =
                "\n) ENGINE = ReplacingMergeTree(build_date)\nORDER BY (view_name, rollup_name)"@;
            assert(created.subrange(created.len() - tail.len(), created.len() as int) =~= tail);
        },
        Dialect::SQLite => {
            let tail = ",\n    UNIQUE (view_name, rollup_name)\n)"@;
            assert(created.subrange(created.len() - tail.len(), created.len() as int) =~= tail);
            let head = "INSERT OR REPLACE INTO "@ + table;
            assert(statements[0].subrange(0, head.len() as int) =~= head);
        },
        _ => {
            let head = "INSERT INTO "@ + table;
            assert(statements[1].subrange(0, head.len() as int) =~= head);
        },
    }
}

} // verus!
