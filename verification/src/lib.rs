//! Pre-aggregation of semantic views: which rollups a view has, the SQL that
//! builds and records them, which rollup can answer a query, and the SQL that
//! answers it from the stored columns.

pub mod answer_laws;
pub mod build_laws;
pub mod build_sql;
pub mod coverage;
pub mod coverage_laws;
pub mod dialect;
pub mod filter_sql;
pub mod hash;
pub mod json;
pub mod manifest;
pub mod model_laws;
pub mod order;
pub mod query;
pub mod reagg_sql;
pub mod rollup;
pub mod schema;
pub mod schema_laws;
pub mod sequences;
pub mod storage_laws;
pub mod text;
pub mod text_laws;
