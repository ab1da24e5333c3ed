//! The parts of a semantic view that pre-aggregation works from.

use vstd::prelude::*;

use crate::text::{enclose, same_text, Text};

verus! {

/// The type of a dimension.
#[derive(Clone, Copy, Debug, PartialEq, Eq, Structural)]
pub enum DimensionType {
    String,
    Number,
    Boolean,
    Date,
    Datetime,
}

impl DimensionType {
    /// Whether values of this type are points in time.
    pub open spec fn temporal(self) -> bool {
        self == DimensionType::Datetime || self == DimensionType::Date
    }

    /// Tells the temporal types from the others.
    pub fn is_temporal(&self) -> (r: bool)
        ensures
            r == self.temporal(),
    {
        *self == DimensionType::Datetime || *self == DimensionType::Date
    }
}

/// How a measure aggregates.
#[derive(Clone, Copy, Debug, PartialEq, Eq, Structural)]
pub enum MeasureType {
    Sum,
    Count,
    Average,
    Min,
    Max,
    CountDistinct,
    CountDistinctApprox,
    Median,
    Number,
    Custom,
}

impl MeasureType {
    /// The name of the type in a manifest.
    pub open spec fn label(self) -> Text {
        match self {
            MeasureType::Sum => "sum"@,
            MeasureType::Count => "count"@,
            MeasureType::Average => "average"@,
            MeasureType::Min => "min"@,
            MeasureType::Max => "max"@,
            MeasureType::CountDistinct => "count_distinct"@,
            MeasureType::CountDistinctApprox => "count_distinct_approx"@,
            MeasureType::Median => "median"@,
            MeasureType::Number => "number"@,
            MeasureType::Custom => "custom"@,
        }
    }

    /// The type that a manifest calls `name`, if there is one.
    pub open spec fn named(name: Text) -> Option<MeasureType> {
        if name == "sum"@ {
            Some(MeasureType::Sum)
        } else if name == "count"@ {
            Some(MeasureType::Count)
        } else if name == "average"@ {
            Some(MeasureType::Average)
        } else if name == "min"@ {
            Some(MeasureType::Min)
        } else if name == "max"@ {
            Some(MeasureType::Max)
        } else if name == "count_distinct"@ {
            Some(MeasureType::CountDistinct)
        } else if name == "count_distinct_approx"@ {
            Some(MeasureType::CountDistinctApprox)
        } else if name == "median"@ {
            Some(MeasureType::Median)
        } else if name == "number"@ {
            Some(MeasureType::Number)
        } else if name == "custom"@ {
            Some(MeasureType::Custom)
        } else {
            None
        }
    }

    /// Whether stored values of this type can be aggregated again.
    pub open spec fn composable(self) -> bool {
        self != MeasureType::Custom && self != MeasureType::Number && self != MeasureType::Median
    }

    /// Whether a rollup keeps the raw values of the expression, and groups by them.
    pub open spec fn keeps_raw_values(self) -> bool {
        self == MeasureType::CountDistinct || self == MeasureType::CountDistinctApprox || self
            == MeasureType::Median
    }

    /// The name of the type in a manifest.
    pub fn name(&self) -> (r: &'static str)
        ensures
            r@ == self.label(),
    {
        match self {
            MeasureType::Sum => "sum",
            MeasureType::Count => "count",
            MeasureType::Average => "average",
            MeasureType::Min => "min",
            MeasureType::Max => "max",
            MeasureType::CountDistinct => "count_distinct",
            MeasureType::CountDistinctApprox => "count_distinct_approx",
            MeasureType::Median => "median",
            MeasureType::Number => "number",
            MeasureType::Custom => "custom",
        }
    }

    /// Looks up a type by its name in a manifest.
    pub fn from_name(name: &str) -> (r: Option<MeasureType>)
        ensures
            r == MeasureType::named(name@),
    {
        if same_text(name, "sum") {
            Some(MeasureType::Sum)
        } else if same_text(name, "count") {
            Some(MeasureType::Count)
        } else if same_text(name, "average") {
            Some(MeasureType::Average)
        } else if same_text(name, "min") {
            Some(MeasureType::Min)
        } else if same_text(name, "max") {
            Some(MeasureType::Max)
        } else if same_text(name, "count_distinct") {
            Some(MeasureType::CountDistinct)
        } else if same_text(name, "count_distinct_approx") {
            Some(MeasureType::CountDistinctApprox)
        } else if same_text(name, "median") {
            Some(MeasureType::Median)
        } else if same_text(name, "number") {
            Some(MeasureType::Number)
        } else if same_text(name, "custom") {
            Some(MeasureType::Custom)
        } else {
            None
        }
    }

    /// Tells whether stored values of this type can be aggregated again.
    pub fn is_composable(&self) -> (r: bool)
        ensures
            r == self.composable(),
    {
        *self != MeasureType::Custom && *self != MeasureType::Number && *self
            != MeasureType::Median
    }

    /// Tells whether a rollup keeps the raw values of the expression.
    pub fn keeps_raw(&self) -> (r: bool)
        ensures
            r == self.keeps_raw_values(),
    {
        *self == MeasureType::CountDistinct || *self == MeasureType::CountDistinctApprox || *self
            == MeasureType::Median
    }
}

/// Reading a type's name gives the type back.
pub proof fn type_names_read_back(t: MeasureType)
    ensures
        MeasureType::named(t.label()) == Some(t),
{
    reveal_strlit("sum");
    reveal_strlit("count");
    reveal_strlit("average");
    reveal_strlit("min");
    reveal_strlit("max");
    reveal_strlit("count_distinct");
    reveal_strlit("count_distinct_approx");
    reveal_strlit("median");
    reveal_strlit("number");
    reveal_strlit("custom");
    assert("count"@.len() == 5 && "average"@.len() == 7 && "count_distinct"@.len() == 14
        && "count_distinct_approx"@.len() == 21);
    assert("sum"@.len() == 3 && "min"@.len() == 3 && "max"@.len() == 3);
    assert("median"@.len() == 6 && "number"@.len() == 6 && "custom"@.len() == 6);
    assert("sum"@ != "min"@ && "sum"@ != "max"@ && "min"@ != "max"@) by {
        assert("sum"@[0] != "min"@[0]);
        assert("sum"@[0] != "max"@[0]);
        assert("min"@[1] != "max"@[1]);
    }
    assert("median"@ != "number"@ && "median"@ != "custom"@ && "number"@ != "custom"@) by {
        assert("median"@[0] != "number"@[0]);
        assert("median"@[0] != "custom"@[0]);
        assert("number"@[0] != "custom"@[0]);
    }
}

/// A dimension of a view.
#[derive(Clone, Debug)]
pub struct Dimension {
    pub name: String,
    pub dimension_type: DimensionType,
    /// The SQL expression that the dimension stands for.
    pub expr: String,
}

/// What a `Dimension` says.
pub ghost struct DimensionModel {
    pub name: Text,
    pub dimension_type: DimensionType,
    pub expr: Text,
}

impl DeepView for Dimension {
    type V = DimensionModel;

    open spec fn deep_view(&self) -> DimensionModel {
        DimensionModel {
            name: self.name@,
            dimension_type: self.dimension_type,
            expr: self.expr@,
        }
    }
}

/// A measure of a view.
#[derive(Clone, Debug)]
pub struct Measure {
    pub name: String,
    pub measure_type: MeasureType,
    /// The SQL expression that the measure aggregates.
    pub expr: Option<String>,
}

/// What a `Measure` says.
pub ghost struct MeasureModel {
    pub name: Text,
    pub measure_type: MeasureType,
    pub expr: Option<Text>,
}

impl DeepView for Measure {
    type V = MeasureModel;

    open spec fn deep_view(&self) -> MeasureModel {
        MeasureModel {
            name: self.name@,
            measure_type: self.measure_type,
            expr: self.expr.deep_view(),
        }
    }
}

/// A rollup as the author of a view asks for it.
#[derive(Clone, Debug)]
pub struct PreAggregation {
    pub name: String,
    pub dimensions: Vec<String>,
    pub measures: Vec<String>,
    pub time_dimension: Option<String>,
    pub granularity: Option<String>,
}

/// What a `PreAggregation` says.
pub ghost struct PreAggregationModel {
    pub name: Text,
    pub dimensions: Seq<Text>,
    pub measures: Seq<Text>,
    pub time_dimension: Option<Text>,
    pub granularity: Option<Text>,
}

impl DeepView for PreAggregation {
    type V = PreAggregationModel;

    open spec fn deep_view(&self) -> PreAggregationModel {
        PreAggregationModel {
            name: self.name@,
            dimensions: self.dimensions.deep_view(),
            measures: self.measures.deep_view(),
            time_dimension: self.time_dimension.deep_view(),
            granularity: self.granularity.deep_view(),
        }
    }
}

/// A semantic view.
#[derive(Clone, Debug)]
pub struct ViewDef {
    pub name: String,
    /// The table that the view reads, where it reads one.
    pub table: Option<String>,
    /// The query that the view reads, where it reads no table.
    pub sql: Option<String>,
    pub dimensions: Vec<Dimension>,
    pub measures: Option<Vec<Measure>>,
    pub pre_aggregations: Option<Vec<PreAggregation>>,
}

/// What a `ViewDef` says.
pub ghost struct ViewModel {
    pub name: Text,
    pub table: Option<Text>,
    pub sql: Option<Text>,
    pub dimensions: Seq<DimensionModel>,
    pub measures: Option<Seq<MeasureModel>>,
    pub pre_aggregations: Option<Seq<PreAggregationModel>>,
}

impl DeepView for ViewDef {
    type V = ViewModel;

    open spec fn deep_view(&self) -> ViewModel {
        ViewModel {
            name: self.name@,
            table: self.table.deep_view(),
            sql: self.sql.deep_view(),
            dimensions: self.dimensions.deep_view(),
            measures: self.measures.deep_view(),
            pre_aggregations: self.pre_aggregations.deep_view(),
        }
    }
}

impl ViewModel {
    /// The measures; a view without a list of them has none.
    pub open spec fn measure_list(self) -> Seq<MeasureModel> {
        match self.measures {
            Some(measures) => measures,
            None => Seq::empty(),
        }
    }

    /// What the view reads, as it stands after `FROM`.
    pub open spec fn source(self) -> Text {
        match (self.table, self.sql) {
            (Some(table), _) => table,
            (None, Some(sql)) => "("@ + sql + ")"@,
            (None, None) => self.name,
        }
    }
}

/// The first dimension called `name`.
pub open spec fn dimension_named(
    dimensions: Seq<DimensionModel>,
    name: Text,
) -> Option<DimensionModel>
    decreases dimensions.len(),
{
    if dimensions.len() == 0 {
        None
    } else if dimensions[0].name == name {
        Some(dimensions[0])
    } else {
        dimension_named(dimensions.drop_first(), name)
    }
}

/// The first measure called `name`.
pub open spec fn measure_named(measures: Seq<MeasureModel>, name: Text) -> Option<MeasureModel>
    decreases measures.len(),
{
    if measures.len() == 0 {
        None
    } else if measures[0].name == name {
        Some(measures[0])
    } else {
        measure_named(measures.drop_first(), name)
    }
}

/// Finds the first dimension called `name`.
pub fn find_dimension<'a>(dimensions: &'a Vec<Dimension>, name: &str) -> (r: Option<&'a Dimension>)
    ensures
        r.deep_view() == dimension_named(dimensions.deep_view(), name@),
{
    let ghost all = dimensions.deep_view();
    let mut i: usize = 0;
    assert(all.skip(0) =~= all);
    while i < dimensions.len()
        invariant
            i <= dimensions@.len(),
            all == dimensions.deep_view(),
            dimension_named(all, name@) == dimension_named(all.skip(i as int), name@),
        decreases dimensions@.len() - i,
    {
        assert(all.skip(i as int)[0] == dimensions@[i as int].deep_view());
        if same_text(dimensions[i].name.as_str(), name) {
            return Some(&dimensions[i]);
        }
        assert(all.skip(i as int).drop_first() =~= all.skip(i + 1));
        i += 1;
    }
    None
}

impl ViewDef {
    /// Finds the first measure called `name`.
    pub fn find_measure(&self, name: &str) -> (r: Option<&Measure>)
        ensures
            r.deep_view() == measure_named(self.deep_view().measure_list(), name@),
    {
        let ghost all = self.deep_view().measure_list();
        let measures = match &self.measures {
            Some(measures) => measures,
            None => {
                return None;
            },
        };
        let mut i: usize = 0;
        assert(all.skip(0) =~= all);
        while i < measures.len()
            invariant
                i <= measures@.len(),
                all == measures.deep_view(),
                all == self.deep_view().measure_list(),
                measure_named(all, name@) == measure_named(all.skip(i as int), name@),
            decreases measures@.len() - i,
        {
            assert(all.skip(i as int)[0] == measures@[i as int].deep_view());
            if same_text(measures[i].name.as_str(), name) {
                return Some(&measures[i]);
            }
            assert(all.skip(i as int).drop_first() =~= all.skip(i + 1));
            i += 1;
        }
        None
    }

    /// Writes what the view reads.
    pub fn source_sql(&self) -> (r: String)
        ensures
            r@ == self.deep_view().source(),
    {
        match (&self.table, &self.sql) {
            (Some(table), _) => table.clone(),
            (None, Some(sql)) => enclose("(", sql.as_str(), ")"),
            (None, None) => self.name.clone(),
        }
    }
}

} // verus!
