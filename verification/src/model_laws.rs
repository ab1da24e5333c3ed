//! The models of the types say what their fields hold.

use vstd::prelude::*;

use crate::json::{json_model, Json, JsonModel};
use crate::manifest::{LocalRollupEntry, ManifestEntry};
use crate::query::{QueryFilter, QueryRequest, TimeDimensionQuery};
use crate::rollup::{RollupMeasure, RollupSpec};
use crate::schema::{Dimension, Measure, PreAggregation, ViewDef};

verus! {

/// The model of a view holds its name, its source, its dimensions, its measures
/// and its pre-aggregations.
pub proof fn views_are_modelled(view: ViewDef, d: Dimension, m: Measure, pa: PreAggregation)
    ensures
        view.deep_view().name == view.name@,
        view.deep_view().table == view.table.deep_view(),
        view.deep_view().sql == view.sql.deep_view(),
        view.deep_view().dimensions == view.dimensions.deep_view(),
        view.deep_view().measures == view.measures.deep_view(),
        view.deep_view().pre_aggregations == view.pre_aggregations.deep_view(),
        d.deep_view().name == d.name@,
        d.deep_view().dimension_type == d.dimension_type,
        d.deep_view().expr == d.expr@,
        m.deep_view().name == m.name@,
        m.deep_view().measure_type == m.measure_type,
        m.deep_view().expr == m.expr.deep_view(),
        pa.deep_view().name == pa.name@,
        pa.deep_view().dimensions == pa.dimensions.deep_view(),
        pa.deep_view().measures == pa.measures.deep_view(),
        pa.deep_view().time_dimension == pa.time_dimension.deep_view(),
        pa.deep_view().granularity == pa.granularity.deep_view(),
{
}

/// The model of a rollup holds its name, its hash, what it groups by and its
/// measures.
pub proof fn rollups_are_modelled(rollup: RollupSpec, m: RollupMeasure)
    ensures
        rollup.deep_view().name == rollup.name@,
        rollup.deep_view().hash == rollup.hash@,
        rollup.deep_view().dimensions == rollup.dimensions.deep_view(),
        rollup.deep_view().measures == rollup.measures.deep_view(),
        rollup.deep_view().time_dimension == rollup.time_dimension.deep_view(),
        rollup.deep_view().granularity == rollup.granularity.deep_view(),
        m.deep_view().name == m.name@,
        m.deep_view().measure_type == m.measure_type,
        m.deep_view().expr == m.expr.deep_view(),
        m.deep_view().columns == m.columns.deep_view(),
{
}

/// The models of the records of a rollup hold all their fields.
pub proof fn records_are_modelled(local: LocalRollupEntry, row: ManifestEntry)
    ensures
        local.deep_view().view_name == local.view_name@,
        local.deep_view().rollup_name == local.rollup_name@,
        local.deep_view().rollup_hash == local.rollup_hash@,
        local.deep_view().file == local.file@,
        local.deep_view().dimensions == local.dimensions.deep_view(),
        local.deep_view().measures == local.measures.deep_view(),
        local.deep_view().time_dimension == local.time_dimension.deep_view(),
        local.deep_view().granularity == local.granularity.deep_view(),
        local.deep_view().build_date == local.build_date@,
        row.deep_view().view_name == row.view_name@,
        row.deep_view().rollup_name == row.rollup_name@,
        row.deep_view().rollup_hash == row.rollup_hash@,
        row.deep_view().table_name == row.table_name@,
        row.deep_view().dimensions == row.dimensions.deep_view(),
        row.deep_view().measures_json == row.measures_json@,
        row.deep_view().time_dimension == row.time_dimension.deep_view(),
        row.deep_view().granularity == row.granularity.deep_view(),
        row.deep_view().build_date == row.build_date@,
{
}

/// The model of a query holds all that it asks for.
pub proof fn queries_are_modelled(request: QueryRequest, td: TimeDimensionQuery)
    ensures
        request.deep_view().measures == request.measures.deep_view(),
        request.deep_view().dimensions == request.dimensions.deep_view(),
        request.deep_view().filters == request.filters.deep_view(),
        request.deep_view().time_dimensions == request.time_dimensions.deep_view(),
        request.deep_view().limit == request.limit,
        request.deep_view().offset == request.offset,
        td.deep_view().dimension == td.dimension@,
        td.deep_view().granularity == td.granularity.deep_view(),
{
}

/// The model of a filter holds its comparison and the models of its parts.
pub proof fn filters_are_modelled(f: QueryFilter, parts: Vec<QueryFilter>)
    ensures
        f.deep_view().member == f.member.deep_view(),
        f.deep_view().operator == f.operator,
        f.deep_view().values == f.values.deep_view(),
        f.and == Some(parts) ==> f.deep_view().and == Some(parts.deep_view()),
        f.and is None ==> f.deep_view().and is None,
        f.or == Some(parts) ==> f.deep_view().or == Some(parts.deep_view()),
        f.or is None ==> f.deep_view().or is None,
{
    if f.and == Some(parts) {
        assert(f.deep_view().and->0 =~= parts.deep_view());
    }
    if f.or == Some(parts) {
        assert(f.deep_view().or->0 =~= parts.deep_view());
    }
}

/// The model of a JSON value holds its text, the models of its items, or its
/// keys with the models of their values.
pub proof fn json_values_are_modelled(
    text: String,
    b: bool,
    items: Vec<Json>,
    fields: Vec<(String, Json)>,
    i: int,
)
    ensures
        Json::Null.deep_view() == JsonModel::Null,
        Json::Bool(b).deep_view() == JsonModel::Bool(b),
        Json::Number(text).deep_view() == JsonModel::Number(text@),
        Json::Str(text).deep_view() == JsonModel::Str(text@),
        Json::Array(items).deep_view() == JsonModel::Array(items.deep_view()),
        Json::Object(fields).deep_view() is Object,
        Json::Object(fields).deep_view()->Object_0.len() == fields@.len(),
        0 <= i < fields@.len() ==> Json::Object(fields).deep_view()->Object_0[i] == (
            fields@[i].0@,
            fields@[i].1.deep_view(),
        ),
{
    assert(json_model(Json::Array(items))->Array_0 =~= items.deep_view());
}

} // verus!
