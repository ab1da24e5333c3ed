//! Queries against semantic views.

use vstd::prelude::*;

use crate::text::{
    contains_text, distinct, is_qualified, member_view, push_text, view_of_member, Text,
};

verus! {

/// How a filter compares a member with its values.
#[derive(Clone, Copy, Debug, PartialEq, Eq, Structural)]
pub enum FilterOperator {
    Equals,
    NotEquals,
    Gt,
    Gte,
    Lt,
    Lte,
    IsSet,
    NotSet,
    Contains,
    NotContains,
    InDateRange,
    NotInDateRange,
    BeforeDate,
    AfterDate,
}

/// A condition on one member, or a conjunction or disjunction of conditions.
#[derive(Debug)]
pub struct QueryFilter {
    pub member: Option<String>,
    pub operator: Option<FilterOperator>,
    pub values: Vec<String>,
    pub and: Option<Vec<QueryFilter>>,
    pub or: Option<Vec<QueryFilter>>,
}

/// What a `QueryFilter` says.
pub ghost struct FilterModel {
    pub member: Option<Text>,
    pub operator: Option<FilterOperator>,
    pub values: Seq<Text>,
    pub and: Option<Seq<FilterModel>>,
    pub or: Option<Seq<FilterModel>>,
}

/// The meaning of a filter.
pub open spec fn filter_model(filter: QueryFilter) -> FilterModel
    decreases filter,
{
    FilterModel {
        member: filter.member.deep_view(),
        operator: filter.operator,
        values: filter.values.deep_view(),
        and: match filter.and {
            Some(parts) => Some(
                Seq::new(
                    parts@.len(),
                    |i: int|
                        if 0 <= i < parts@.len() {
                            filter_model(parts@[i])
                        } else {
                            arbitrary()
                        },
                ),
            ),
            None => None,
        },
        or: match filter.or {
            Some(parts) => Some(
                Seq::new(
                    parts@.len(),
                    |i: int|
                        if 0 <= i < parts@.len() {
                            filter_model(parts@[i])
                        } else {
                            arbitrary()
                        },
                ),
            ),
            None => None,
        },
    }
}

impl DeepView for QueryFilter {
    type V = FilterModel;

    open spec fn deep_view(&self) -> FilterModel {
        filter_model(*self)
    }
}

/// A time dimension that a query asks for.
#[derive(Clone, Debug)]
pub struct TimeDimensionQuery {
    pub dimension: String,
    pub granularity: Option<String>,
}

/// What a `TimeDimensionQuery` says.
pub ghost struct TimeDimensionModel {
    pub dimension: Text,
    pub granularity: Option<Text>,
}

impl DeepView for TimeDimensionQuery {
    type V = TimeDimensionModel;

    open spec fn deep_view(&self) -> TimeDimensionModel {
        TimeDimensionModel {
            dimension: self.dimension@,
            granularity: self.granularity.deep_view(),
        }
    }
}

/// A query. Members are written `view.member`, or `member` alone.
#[derive(Debug)]
pub struct QueryRequest {
    pub measures: Vec<String>,
    pub dimensions: Vec<String>,
    pub filters: Vec<QueryFilter>,
    pub time_dimensions: Vec<TimeDimensionQuery>,
    pub limit: Option<u64>,
    pub offset: Option<u64>,
}

/// What a `QueryRequest` says.
pub ghost struct RequestModel {
    pub measures: Seq<Text>,
    pub dimensions: Seq<Text>,
    pub filters: Seq<FilterModel>,
    pub time_dimensions: Seq<TimeDimensionModel>,
    pub limit: Option<u64>,
    pub offset: Option<u64>,
}

impl DeepView for QueryRequest {
    type V = RequestModel;

    open spec fn deep_view(&self) -> RequestModel {
        RequestModel {
            measures: self.measures.deep_view(),
            dimensions: self.dimensions.deep_view(),
            filters: self.filters.deep_view(),
            time_dimensions: self.time_dimensions.deep_view(),
            limit: self.limit,
            offset: self.offset,
        }
    }
}

/// The member of a filter, where it has one, and those of its parts.
pub open spec fn filter_members(filter: FilterModel) -> Seq<Text>
    decreases filter, 0int,
{
    let own = match filter.member {
        Some(member) => seq![member],
        None => seq![],
    };
    let conjuncts = match filter.and {
        Some(parts) => all_filter_members(parts),
        None => seq![],
    };
    let disjuncts = match filter.or {
        Some(parts) => all_filter_members(parts),
        None => seq![],
    };
    own + conjuncts + disjuncts
}

/// The members of all filters, in order.
pub open spec fn all_filter_members(filters: Seq<FilterModel>) -> Seq<Text>
    decreases filters, 1int,
{
    if filters.len() == 0 {
        seq![]
    } else {
        all_filter_members(filters.drop_last()) + filter_members(filters.last())
    }
}

/// Adds the members of a filter and of its parts to `members`.
pub fn collect_filter_members(filter: &QueryFilter, members: &mut Vec<String>)
    ensures
        final(members).deep_view() == old(members).deep_view() + filter_members(
            filter.deep_view(),
        ),
    decreases filter,
{
    let ghost start = members.deep_view();
    if let Some(member) = &filter.member {
        push_text(members, member.clone());
    }
    assert(members.deep_view() =~= start + match filter.deep_view().member {
        Some(member) => seq![member],
        None => seq![],
    });
    if let Some(parts) = &filter.and {
        assert(filter.deep_view().and->0 =~= parts.deep_view());
        assert(decreases_to!(*filter => filter.and));
        assert(*parts == filter.and->0);
        assert(decreases_to!(filter.and => filter.and->0));
        collect_members_of(parts, members);
    }
    if let Some(parts) = &filter.or {
        assert(filter.deep_view().or->0 =~= parts.deep_view());
        assert(decreases_to!(*filter => filter.or));
        assert(*parts == filter.or->0);
        assert(decreases_to!(filter.or => filter.or->0));
        collect_members_of(parts, members);
    }
    assert(members.deep_view() =~= start + filter_members(filter.deep_view()));
}

/// Adds the members of all filters to `members`.
pub fn collect_members_of(filters: &Vec<QueryFilter>, members: &mut Vec<String>)
    ensures
        final(members).deep_view() == old(members).deep_view() + all_filter_members(
            filters.deep_view(),
        ),
    decreases filters,
{
    let ghost start = members.deep_view();
    let ghost all = filters.deep_view();
    let mut i: usize = 0;
    assert(members.deep_view() =~= start + all_filter_members(all.take(0)));
    while i < filters.len()
        invariant
            i <= filters@.len(),
            all == filters.deep_view(),
            members.deep_view() == start + all_filter_members(all.take(i as int)),
        decreases filters@.len() - i,
    {
        let filter: &QueryFilter = &filters[i];
        collect_filter_members(filter, members);
        i += 1;
        assert(all.take(i as int).drop_last() =~= all.take(i - 1));
        assert(all.take(i as int).last() == filter.deep_view());
        assert(members.deep_view() =~= start + all_filter_members(all.take(i as int)));
    }
    assert(all.take(i as int) =~= all);
}

impl RequestModel {
    /// Every member that the query mentions: dimensions, measures, time
    /// dimensions, and the members of its filters.
    pub open spec fn members(self) -> Seq<Text> {
        self.dimensions + self.measures + self.time_dimensions.map_values(
            |td: TimeDimensionModel| td.dimension,
        ) + all_filter_members(self.filters)
    }

    /// The views that the query's members name, each once.
    pub open spec fn views(self) -> Seq<Text> {
        distinct(self.members().filter_map(|member: Text| named_view(member)))
    }
}

/// The view that a member names, if it names one.
pub open spec fn named_view(member: Text) -> Option<Text> {
    if is_qualified(member) {
        Some(member_view(member))
    } else {
        None
    }
}

/// Adds the strings of `more` to `list`.
fn append_texts(list: &mut Vec<String>, more: &Vec<String>)
    ensures
        final(list).deep_view() == old(list).deep_view() + more.deep_view(),
{
    let ghost start = list.deep_view();
    let mut i: usize = 0;
    assert(list.deep_view() =~= start + more.deep_view().take(0));
    while i < more.len()
        invariant
            i <= more@.len(),
            list.deep_view() == start + more.deep_view().take(i as int),
        decreases more@.len() - i,
    {
        push_text(list, more[i].clone());
        i += 1;
        assert(list.deep_view() =~= start + more.deep_view().take(i as int));
    }
    assert(more.deep_view().take(i as int) =~= more.deep_view());
}

impl QueryRequest {
    /// The query that asks for nothing.
    pub fn new() -> (r: QueryRequest)
        ensures
            r.measures@.len() == 0,
            r.dimensions@.len() == 0,
            r.filters@.len() == 0,
            r.time_dimensions@.len() == 0,
            r.limit is None,
            r.offset is None,
    {
        QueryRequest {
            measures: Vec::new(),
            dimensions: Vec::new(),
            filters: Vec::new(),
            time_dimensions: Vec::new(),
            limit: None,
            offset: None,
        }
    }

    /// Every member that the query mentions.
    fn collect_members(&self) -> (members: Vec<String>)
        ensures
            members.deep_view() == self.deep_view().members(),
    {
        let mut members: Vec<String> = Vec::new();
        assert(members.deep_view() =~= Seq::<Text>::empty());
        append_texts(&mut members, &self.dimensions);
        append_texts(&mut members, &self.measures);
        let ghost start = members.deep_view();
        let ghost times = self.deep_view().time_dimensions.map_values(
            |td: TimeDimensionModel| td.dimension,
        );
        let mut i: usize = 0;
        assert(members.deep_view() =~= start + times.take(0));
        while i < self.time_dimensions.len()
            invariant
                i <= self.time_dimensions@.len(),
                times == self.time_dimensions.deep_view().map_values(
                    |td: TimeDimensionModel| td.dimension,
                ),
                members.deep_view() == start + times.take(i as int),
            decreases self.time_dimensions@.len() - i,
        {
            push_text(&mut members, self.time_dimensions[i].dimension.clone());
            i += 1;
            assert(members.deep_view() =~= start + times.take(i as int));
        }
        assert(times.take(i as int) =~= times);
        collect_members_of(&self.filters, &mut members);
        assert(members.deep_view() =~= self.deep_view().members());
        members
    }

    /// The views that the query's members name, each once, in the order in
    /// which they first occur.
    pub fn referenced_views(&self) -> (views: Vec<String>)
        ensures
            views.deep_view() == self.deep_view().views(),
    {
        let members = self.collect_members();
        let ghost all = members.deep_view();
        let ghost f = |member: Text| named_view(member);
        let mut views: Vec<String> = Vec::new();
        let mut i: usize = 0;
        assert(all.take(0).filter_map(f) =~= Seq::<Text>::empty());
        assert(views.deep_view() =~= distinct(all.take(0).filter_map(f)));
        while i < members.len()
            invariant
                i <= members@.len(),
                all == members.deep_view(),
                f == (|member: Text| named_view(member)),
                views.deep_view() == distinct(all.take(i as int).filter_map(f)),
            decreases members@.len() - i,
        {
            let ghost before = all.take(i as int).filter_map(f);
            assert(all.take(i + 1).drop_last() =~= all.take(i as int));
            assert(all.take(i + 1).last() == members@[i as int]@);
            if let Some(view) = view_of_member(members[i].as_str()) {
                let ghost after = before + seq![view@];
                assert(after.drop_last() =~= before);
                assert(after.last() == view@);
                if !contains_text(&views, view.as_str()) {
                    push_text(&mut views, view);
                }
            }
            i += 1;
        }
        assert(all.take(i as int) =~= all);
        views
    }
}

} // verus!
