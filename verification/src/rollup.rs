//! The rollups of a view: those that its author asks for, or one default.

use vstd::prelude::*;

use crate::hash::{compute_rollup_hash, rollup_hash};
use crate::schema::{
    measure_named, Dimension, DimensionModel, Measure, MeasureModel, MeasureType, PreAggregation,
    PreAggregationModel, ViewDef, ViewModel,
};
use crate::text::{borrow_option, copy_option, copy_texts, push_text, suffixed, Text};

verus! {

/// A measure of a rollup, with the columns that store it.
#[derive(Clone, Debug)]
pub struct RollupMeasure {
    pub name: String,
    pub measure_type: MeasureType,
    /// The SQL expression of the view's measure.
    pub expr: Option<String>,
    /// The columns of the rollup's table that hold the measure.
    pub columns: Vec<String>,
}

/// What a `RollupMeasure` says.
pub ghost struct RollupMeasureModel {
    pub name: Text,
    pub measure_type: MeasureType,
    pub expr: Option<Text>,
    pub columns: Seq<Text>,
}

impl DeepView for RollupMeasure {
    type V = RollupMeasureModel;

    open spec fn deep_view(&self) -> RollupMeasureModel {
        RollupMeasureModel {
            name: self.name@,
            measure_type: self.measure_type,
            expr: self.expr.deep_view(),
            columns: self.columns.deep_view(),
        }
    }
}

/// A rollup, ready to be built.
#[derive(Clone, Debug)]
pub struct RollupSpec {
    pub name: String,
    pub hash: String,
    pub dimensions: Vec<String>,
    pub measures: Vec<RollupMeasure>,
    pub time_dimension: Option<String>,
    pub granularity: Option<String>,
}

/// What a `RollupSpec` says.
pub ghost struct RollupModel {
    pub name: Text,
    pub hash: Text,
    pub dimensions: Seq<Text>,
    pub measures: Seq<RollupMeasureModel>,
    pub time_dimension: Option<Text>,
    pub granularity: Option<Text>,
}

impl DeepView for RollupSpec {
    type V = RollupModel;

    open spec fn deep_view(&self) -> RollupModel {
        RollupModel {
            name: self.name@,
            hash: self.hash@,
            dimensions: self.dimensions.deep_view(),
            measures: self.measures.deep_view(),
            time_dimension: self.time_dimension.deep_view(),
            granularity: self.granularity.deep_view(),
        }
    }
}

/// The column that keeps raw values: the expression, or the measure's name
/// where it has none.
pub open spec fn raw_column(name: Text, expr: Option<Text>) -> Text {
    match expr {
        Some(e) => e,
        None => name,
    }
}

/// The columns that store a measure of the given type.
pub open spec fn stored_columns(
    measure_type: MeasureType,
    name: Text,
    expr: Option<Text>,
) -> Seq<Text> {
    match measure_type {
        MeasureType::Sum => seq![name + "__sum"@],
        MeasureType::Count => seq![name + "__count"@],
        MeasureType::Average => seq![name + "__sum"@, name + "__count"@],
        MeasureType::Min => seq![name + "__min"@],
        MeasureType::Max => seq![name + "__max"@],
        MeasureType::CountDistinct | MeasureType::CountDistinctApprox => seq![
            raw_column(name, expr),
        ],
        MeasureType::Median => seq![raw_column(name, expr), raw_column(name, expr) + "__freq"@],
        MeasureType::Number => seq![name + "__value"@],
        MeasureType::Custom => seq![],
    }
}

/// The rollup's form of a view's measure.
pub open spec fn rollup_measure(m: MeasureModel) -> RollupMeasureModel {
    RollupMeasureModel {
        name: m.name,
        measure_type: m.measure_type,
        expr: m.expr,
        columns: stored_columns(m.measure_type, m.name, m.expr),
    }
}

/// The rollup's form of the view's first measure called `name`.
pub open spec fn requested_measure(view: ViewModel, name: Text) -> Option<RollupMeasureModel> {
    match measure_named(view.measure_list(), name) {
        Some(m) => Some(rollup_measure(m)),
        None => None,
    }
}

/// The names of the measures, in order.
pub open spec fn measure_names(measures: Seq<RollupMeasureModel>) -> Seq<Text> {
    measures.map_values(|m: RollupMeasureModel| m.name)
}

/// The rollup that a `PreAggregation` asks for. Names of measures that the view
/// does not have are passed over.
pub open spec fn explicit_rollup(view: ViewModel, pa: PreAggregationModel) -> RollupModel {
    let measures = pa.measures.filter_map(|name: Text| requested_measure(view, name));
    RollupModel {
        name: pa.name,
        hash: rollup_hash(
            pa.dimensions,
            measure_names(measures),
            pa.time_dimension,
            pa.granularity,
        ),
        dimensions: pa.dimensions,
        measures,
        time_dimension: pa.time_dimension,
        granularity: pa.granularity,
    }
}

/// The name of the first dimension that is a point in time.
pub open spec fn first_temporal(dimensions: Seq<DimensionModel>) -> Option<Text>
    decreases dimensions.len(),
{
    if dimensions.len() == 0 {
        None
    } else if dimensions[0].dimension_type.temporal() {
        Some(dimensions[0].name)
    } else {
        first_temporal(dimensions.drop_first())
    }
}

/// The name of a dimension that a default rollup groups by.
pub open spec fn plain_dimension(d: DimensionModel) -> Option<Text> {
    if d.dimension_type.temporal() {
        None
    } else {
        Some(d.name)
    }
}

/// The rollup's form of a measure that a default rollup holds.
pub open spec fn composable_measure(m: MeasureModel) -> Option<RollupMeasureModel> {
    if m.measure_type.composable() {
        Some(rollup_measure(m))
    } else {
        None
    }
}

/// The rollup of a view that asks for none: every dimension that is no point in
/// time, every measure that can be aggregated again, by day.
pub open spec fn default_rollup(view: ViewModel) -> RollupModel {
    let dimensions = view.dimensions.filter_map(|d: DimensionModel| plain_dimension(d));
    let measures = view.measure_list().filter_map(|m: MeasureModel| composable_measure(m));
    let time_dimension = first_temporal(view.dimensions);
    RollupModel {
        name: "default"@,
        hash: rollup_hash(dimensions, measure_names(measures), time_dimension, Some("day"@)),
        dimensions,
        measures,
        time_dimension,
        granularity: Some("day"@),
    }
}

/// The rollups of a view.
pub open spec fn rollups_of(view: ViewModel) -> Seq<RollupModel> {
    match view.pre_aggregations {
        Some(wanted) => wanted.map_values(|pa: PreAggregationModel| explicit_rollup(view, pa)),
        None => seq![default_rollup(view)],
    }
}

/// The column that keeps raw values of a measure.
pub fn raw_column_of(name: &str, expr: &Option<String>) -> (r: String)
    ensures
        r@ == raw_column(name@, expr.deep_view()),
{
    match expr {
        Some(e) => e.clone(),
        None => name.to_string(),
    }
}

/// Determines the columns that store a measure.
pub fn build_rollup_measure(m: &Measure) -> (r: RollupMeasure)
    ensures
        r.deep_view() == rollup_measure(m.deep_view()),
{
    let name = m.name.as_str();
    let mut columns: Vec<String> = Vec::new();
    match m.measure_type {
        MeasureType::Sum => {
            columns.push(suffixed(name, "__sum"));
        },
        MeasureType::Count => {
            columns.push(suffixed(name, "__count"));
        },
        MeasureType::Average => {
            columns.push(suffixed(name, "__sum"));
            columns.push(suffixed(name, "__count"));
        },
        MeasureType::Min => {
            columns.push(suffixed(name, "__min"));
        },
        MeasureType::Max => {
            columns.push(suffixed(name, "__max"));
        },
        MeasureType::CountDistinct | MeasureType::CountDistinctApprox => {
            columns.push(raw_column_of(name, &m.expr));
        },
        MeasureType::Median => {
            let raw = raw_column_of(name, &m.expr);
            let freq = suffixed(raw.as_str(), "__freq");
            columns.push(raw);
            columns.push(freq);
        },
        MeasureType::Number => {
            columns.push(suffixed(name, "__value"));
        },
        MeasureType::Custom => {},
    }
    assert(columns.deep_view() =~= stored_columns(m.measure_type, m.name@, m.expr.deep_view()));
    RollupMeasure {
        name: m.name.clone(),
        measure_type: m.measure_type,
        expr: copy_option(&m.expr),
        columns,
    }
}

/// The names of the measures, in order.
fn names_of(measures: &Vec<RollupMeasure>) -> (names: Vec<String>)
    ensures
        names.deep_view() == measure_names(measures.deep_view()),
{
    let ghost all = measure_names(measures.deep_view());
    let mut names: Vec<String> = Vec::new();
    let mut i: usize = 0;
    assert(names.deep_view() =~= all.take(0));
    while i < measures.len()
        invariant
            i <= measures@.len(),
            all == measure_names(measures.deep_view()),
            names.deep_view() == all.take(i as int),
        decreases measures@.len() - i,
    {
        push_text(&mut names, measures[i].name.clone());
        i += 1;
        assert(names.deep_view() =~= all.take(i as int));
    }
    assert(names.deep_view() =~= all);
    names
}

/// Resolves a rollup that the view's author asks for.
pub fn resolve_explicit_rollup(view: &ViewDef, pa: &PreAggregation) -> (r: RollupSpec)
    ensures
        r.deep_view() == explicit_rollup(view.deep_view(), pa.deep_view()),
{
    let ghost f = |name: Text| requested_measure(view.deep_view(), name);
    let ghost wanted = pa.measures.deep_view();
    let mut measures: Vec<RollupMeasure> = Vec::new();
    let mut i: usize = 0;
    assert(measures.deep_view() =~= wanted.take(0).filter_map(f));
    while i < pa.measures.len()
        invariant
            i <= pa.measures@.len(),
            wanted == pa.measures.deep_view(),
            f == (|name: Text| requested_measure(view.deep_view(), name)),
            measures.deep_view() == wanted.take(i as int).filter_map(f),
        decreases pa.measures@.len() - i,
    {
        let ghost before = measures.deep_view();
        if let Some(m) = view.find_measure(pa.measures[i].as_str()) {
            let measure = build_rollup_measure(m);
            measures.push(measure);
            assert(measures.deep_view() =~= before + seq![measure.deep_view()]);
        }
        i += 1;
        assert(wanted.take(i as int).drop_last() =~= wanted.take(i - 1));
        assert(wanted.take(i as int).last() == wanted[i - 1]);
    }
    assert(wanted.take(i as int) =~= wanted);
    let names = names_of(&measures);
    let hash = compute_rollup_hash(
        pa.dimensions.as_slice(),
        names.as_slice(),
        borrow_option(&pa.time_dimension),
        borrow_option(&pa.granularity),
    );
    RollupSpec {
        name: pa.name.clone(),
        hash,
        dimensions: copy_texts(&pa.dimensions),
        measures,
        time_dimension: copy_option(&pa.time_dimension),
        granularity: copy_option(&pa.granularity),
    }
}

/// The name of the first dimension that is a point in time.
fn find_temporal(dimensions: &Vec<Dimension>) -> (r: Option<String>)
    ensures
        r.deep_view() == first_temporal(dimensions.deep_view()),
{
    let ghost all = dimensions.deep_view();
    let mut i: usize = 0;
    assert(all.skip(0) =~= all);
    while i < dimensions.len()
        invariant
            i <= dimensions@.len(),
            all == dimensions.deep_view(),
            first_temporal(all) == first_temporal(all.skip(i as int)),
        decreases dimensions@.len() - i,
    {
        assert(all.skip(i as int)[0] == dimensions@[i as int].deep_view());
        if dimensions[i].dimension_type.is_temporal() {
            return Some(dimensions[i].name.clone());
        }
        assert(all.skip(i as int).drop_first() =~= all.skip(i + 1));
        i += 1;
    }
    None
}

/// The names of the dimensions that are no points in time.
fn plain_dimensions(dimensions: &Vec<Dimension>) -> (names: Vec<String>)
    ensures
        names.deep_view() == dimensions.deep_view().filter_map(
            |d: DimensionModel| plain_dimension(d),
        ),
{
    let ghost f = |d: DimensionModel| plain_dimension(d);
    let ghost all = dimensions.deep_view();
    let mut names: Vec<String> = Vec::new();
    let mut i: usize = 0;
    assert(names.deep_view() =~= all.take(0).filter_map(f));
    while i < dimensions.len()
        invariant
            i <= dimensions@.len(),
            all == dimensions.deep_view(),
            f == (|d: DimensionModel| plain_dimension(d)),
            names.deep_view() == all.take(i as int).filter_map(f),
        decreases dimensions@.len() - i,
    {
        let ghost before = names.deep_view();
        if !dimensions[i].dimension_type.is_temporal() {
            push_text(&mut names, dimensions[i].name.clone());
            assert(names.deep_view() =~= before + seq![dimensions@[i as int].name@]);
        }
        i += 1;
        assert(all.take(i as int).drop_last() =~= all.take(i - 1));
        assert(all.take(i as int).last() == all[i - 1]);
    }
    assert(all.take(i as int) =~= all);
    names
}

/// The rollup's form of the measures that can be aggregated again.
fn composable_measures(measures: &Vec<Measure>) -> (r: Vec<RollupMeasure>)
    ensures
        r.deep_view() == measures.deep_view().filter_map(|m: MeasureModel| composable_measure(m)),
{
    let ghost f = |m: MeasureModel| composable_measure(m);
    let ghost all = measures.deep_view();
    let mut r: Vec<RollupMeasure> = Vec::new();
    let mut i: usize = 0;
    assert(r.deep_view() =~= all.take(0).filter_map(f));
    while i < measures.len()
        invariant
            i <= measures@.len(),
            all == measures.deep_view(),
            f == (|m: MeasureModel| composable_measure(m)),
            r.deep_view() == all.take(i as int).filter_map(f),
        decreases measures@.len() - i,
    {
        let ghost before = r.deep_view();
        if measures[i].measure_type.is_composable() {
            let measure = build_rollup_measure(&measures[i]);
            r.push(measure);
            assert(r.deep_view() =~= before + seq![measure.deep_view()]);
        }
        i += 1;
        assert(all.take(i as int).drop_last() =~= all.take(i - 1));
        assert(all.take(i as int).last() == all[i - 1]);
    }
    assert(all.take(i as int) =~= all);
    r
}

/// Makes the rollup of a view that asks for none.
pub fn generate_default_rollup(view: &ViewDef) -> (r: RollupSpec)
    ensures
        r.deep_view() == default_rollup(view.deep_view()),
{
    let time_dimension = find_temporal(&view.dimensions);
    let dimensions = plain_dimensions(&view.dimensions);
    let measures = match &view.measures {
        Some(measures) => composable_measures(measures),
        None => Vec::new(),
    };
    assert(measures.deep_view() =~= view.deep_view().measure_list().filter_map(
        |m: MeasureModel| composable_measure(m),
    ));
    let names = names_of(&measures);
    let hash = compute_rollup_hash(
        dimensions.as_slice(),
        names.as_slice(),
        borrow_option(&time_dimension),
        Some("day"),
    );
    RollupSpec {
        name: "default".to_string(),
        hash,
        dimensions,
        measures,
        time_dimension,
        granularity: Some("day".to_string()),
    }
}

/// Resolves the rollups of a view: those in `pre_aggregations` where there is
/// such a list, else one default.
pub fn resolve_rollups(view: &ViewDef) -> (r: Vec<RollupSpec>)
    ensures
        r.deep_view() == rollups_of(view.deep_view()),
{
    let ghost all = rollups_of(view.deep_view());
    let mut r: Vec<RollupSpec> = Vec::new();
    match &view.pre_aggregations {
        Some(wanted) => {
            let mut i: usize = 0;
            while i < wanted.len()
                invariant
                    i <= wanted@.len(),
                    view.deep_view().pre_aggregations == Some(wanted.deep_view()),
                    all == rollups_of(view.deep_view()),
                    r.deep_view() == all.take(i as int),
                decreases wanted@.len() - i,
            {
                let ghost before = r.deep_view();
                let rollup = resolve_explicit_rollup(view, &wanted[i]);
                r.push(rollup);
                i += 1;
                assert(r.deep_view() =~= before.push(rollup.deep_view()));
                assert(r.deep_view() =~= all.take(i as int));
            }
            assert(r.deep_view() =~= all);
        },
        None => {
            r.push(generate_default_rollup(view));
            assert(r.deep_view() =~= all);
        },
    }
    r
}

} // verus!
