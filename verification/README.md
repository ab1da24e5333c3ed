# preagg

Pre-aggregation for semantic views, verified with Verus.

A view has dimensions and measures. A rollup is a table that holds the view's
measures, aggregated by some of its dimensions and by one time dimension. This
library decides which rollups a view has, writes the SQL that builds and records
them in eleven SQL dialects, tells which rollup can answer a query, and writes
the SQL that answers the query from the stored columns: from a Parquet file of a
local cache, or from the rollup's table in the warehouse.

## Layout

- `src/text.rs`, `src/order.rs`, `src/sequences.rs`: strings, their order, and
  sequences.
- `src/schema.rs`, `src/query.rs`, `src/json.rs`: views, queries, JSON values.
- `src/hash.rs`, `src/rollup.rs`: the rollups of a view and the hash that names
  their tables.
- `src/dialect.rs`, `src/build_sql.rs`, `src/manifest.rs`: the statements that
  build and record a rollup.
- `src/coverage.rs`, `src/filter_sql.rs`, `src/reagg_sql.rs`: which rollup covers
  a query, and the query on it.
- `src/coverage_laws.rs`, `src/storage_laws.rs`: what holds of all of this
  together, such as that a covered query loses no filter and reads only columns
  that the rollup's table has.
- `app/lib.rs`: the types as `serde` writes and reads them.

Each type has a model, its `deep_view()`, made of sequences of characters. Each
generator's contract equates the text that it writes with a specification
function on the models of its arguments.

Three things are believed and not proved: `String::push` appends a character,
and `serde_json::to_string` gives a list of strings, and a list of objects, a
text that depends on the list alone.
