//! Filters as conditions on a rollup's columns.

use vstd::prelude::*;

use crate::build_sql::time_column;
use crate::coverage::option_is;
use crate::dialect::Dialect;
use crate::manifest::{EntryModel, LocalRollupEntry};
use crate::query::{FilterModel, FilterOperator, QueryFilter, QueryRequest, RequestModel};
use crate::text::{
    contains_text, enclose, join, joined, lemma_replaced_concat, member_name, name_of_member,
    push_text, replace_char, replaced, suffixed, Text,
};

verus! {

/// `value` with its single quotes doubled.
pub open spec fn escaped(value: Text) -> Text {
    replaced(value, '\'', "''"@)
}

/// `value` as an SQL string.
pub open spec fn literal(value: Text) -> Text {
    "'"@ + escaped(value) + "'"@
}

/// The column of the rollup's table that holds the member `name`.
pub open spec fn filter_column(entry: EntryModel, dialect: Dialect, name: Text) -> Option<Text> {
    if entry.dimensions.contains(name) {
        Some(dialect.quoted(name))
    } else if entry.time_dimension == Some(name) {
        match entry.granularity {
            Some(granularity) => Some(dialect.quoted(time_column(name, granularity))),
            None => Some(dialect.quoted(name)),
        }
    } else {
        None
    }
}

/// The first value as an SQL string, or `NULL` where there is none.
pub open spec fn first_literal(values: Seq<Text>) -> Text {
    if values.len() > 0 {
        literal(values[0])
    } else {
        "NULL"@
    }
}

/// The values as SQL strings, in order.
pub open spec fn literals(values: Seq<Text>) -> Seq<Text> {
    values.map_values(|v: Text| literal(v))
}

/// The first value in a pattern that matches it anywhere in a text.
pub open spec fn anywhere(values: Seq<Text>) -> Text {
    "'%"@ + (if values.len() > 0 {
        escaped(values[0])
    } else {
        Seq::empty()
    }) + "%'"@
}

/// The comparison of a column with values. Ranges of dates have none.
pub open spec fn comparison(operator: FilterOperator, column: Text, values: Seq<Text>) -> Option<
    Text,
> {
    match operator {
        FilterOperator::Equals => Some(
            if values.len() == 1 {
                column + " = "@ + literal(values[0])
            } else {
                column + " IN ("@ + joined(literals(values), ", "@) + ")"@
            },
        ),
        FilterOperator::NotEquals => Some(
            if values.len() == 1 {
                column + " <> "@ + literal(values[0])
            } else {
                column + " NOT IN ("@ + joined(literals(values), ", "@) + ")"@
            },
        ),
        FilterOperator::Gt => Some(column + " > "@ + first_literal(values)),
        FilterOperator::Gte => Some(column + " >= "@ + first_literal(values)),
        FilterOperator::Lt => Some(column + " < "@ + first_literal(values)),
        FilterOperator::Lte => Some(column + " <= "@ + first_literal(values)),
        FilterOperator::IsSet => Some(column + " IS NOT NULL"@),
        FilterOperator::NotSet => Some(column + " IS NULL"@),
        FilterOperator::Contains => Some(column + " LIKE "@ + anywhere(values)),
        FilterOperator::NotContains => Some(column + " NOT LIKE "@ + anywhere(values)),
        FilterOperator::InDateRange
        | FilterOperator::NotInDateRange
        | FilterOperator::BeforeDate
        | FilterOperator::AfterDate => None,
    }
}

/// The parts between brackets; none where there are no parts.
pub open spec fn bracketed(parts: Seq<Text>, separator: Text) -> Option<Text> {
    if parts.len() == 0 {
        None
    } else {
        Some("("@ + joined(parts, separator) + ")"@)
    }
}

/// The condition for a filter, where it can be put in SQL.
pub open spec fn condition(filter: FilterModel, entry: EntryModel, dialect: Dialect) -> Option<Text>
    decreases filter, 0int,
{
    match (filter.member, filter.operator) {
        (Some(member), Some(operator)) => match filter_column(
            entry,
            dialect,
            member_name(member),
        ) {
            Some(column) => comparison(operator, column, filter.values),
            None => None,
        },
        _ => match (filter.and, filter.or) {
            (Some(parts), _) => bracketed(conditions(parts, entry, dialect), " AND "@),
            (None, Some(parts)) => bracketed(conditions(parts, entry, dialect), " OR "@),
            (None, None) => None,
        },
    }
}

/// The conditions for those of the filters that can be put in SQL, in order.
pub open spec fn conditions(filters: Seq<FilterModel>, entry: EntryModel, dialect: Dialect) -> Seq<
    Text,
>
    decreases filters, 1int,
{
    if filters.len() == 0 {
        seq![]
    } else {
        let before = conditions(filters.drop_last(), entry, dialect);
        match condition(filters.last(), entry, dialect) {
            Some(sql) => before.push(sql),
            None => before,
        }
    }
}

/// The `WHERE` clause of a query on a rollup's table; nothing where it has no
/// conditions.
pub open spec fn where_clause(request: RequestModel, entry: EntryModel, dialect: Dialect) -> Text {
    let parts = conditions(request.filters, entry, dialect);
    if parts.len() == 0 {
        Seq::empty()
    } else {
        "\nWHERE "@ + joined(parts, " AND "@)
    }
}

/// Doubles the single quotes of a value.
pub fn escape(value: &str) -> (r: String)
    ensures
        r@ == escaped(value@),
{
    replace_char(value, '\'', "''")
}

/// Writes a value as an SQL string.
pub fn write_literal(value: &str) -> (r: String)
    ensures
        r@ == literal(value@),
{
    enclose("'", escape(value).as_str(), "'")
}

fn find_filter_column(entry: &LocalRollupEntry, dialect: &Dialect, name: &str) -> (r: Option<
    String,
>)
    ensures
        r.deep_view() == filter_column(entry.deep_view(), *dialect, name@),
{
    if contains_text(&entry.dimensions, name) {
        Some(dialect.quote_identifier(name))
    } else if option_is(&entry.time_dimension, name) {
        match &entry.granularity {
            Some(granularity) => {
                let column = enclose(name, "__", granularity.as_str());
                Some(dialect.quote_identifier(column.as_str()))
            },
            None => Some(dialect.quote_identifier(name)),
        }
    } else {
        None
    }
}

fn write_literals(values: &Vec<String>) -> (r: Vec<String>)
    ensures
        r.deep_view() == literals(values.deep_view()),
{
    let ghost all = literals(values.deep_view());
    let mut r: Vec<String> = Vec::new();
    let mut i: usize = 0;
    assert(r.deep_view() =~= all.take(0));
    while i < values.len()
        invariant
            i <= values@.len(),
            all == literals(values.deep_view()),
            r.deep_view() == all.take(i as int),
        decreases values@.len() - i,
    {
        push_text(&mut r, write_literal(values[i].as_str()));
        i += 1;
        assert(r.deep_view() =~= all.take(i as int));
    }
    assert(r.deep_view() =~= all);
    r
}

fn write_first_literal(values: &Vec<String>) -> (r: String)
    ensures
        r@ == first_literal(values.deep_view()),
{
    if values.len() > 0 {
        write_literal(values[0].as_str())
    } else {
        "NULL".to_string()
    }
}

fn write_anywhere(values: &Vec<String>) -> (r: String)
    ensures
        r@ == anywhere(values.deep_view()),
{
    if values.len() > 0 {
        enclose("'%", escape(values[0].as_str()).as_str(), "%'")
    } else {
        enclose("'%", String::new().as_str(), "%'")
    }
}

/// Writes `column = value` for one value, and `column IN (..)` for another number.
fn write_membership(column: &str, one: &str, many: &str, values: &Vec<String>) -> (r: String)
    ensures
        r@ == if values@.len() == 1 {
            column@ + one@ + literal(values.deep_view()[0])
        } else {
            column@ + many@ + joined(literals(values.deep_view()), ", "@) + ")"@
        },
{
    if values.len() == 1 {
        enclose(column, one, write_literal(values[0].as_str()).as_str())
    } else {
        let list = write_literals(values);
        let mut r = enclose(column, many, join(&list, ", ").as_str());
        r.append(")");
        r
    }
}

fn write_comparison(operator: FilterOperator, column: &str, values: &Vec<String>) -> (r: Option<
    String,
>)
    ensures
        r.deep_view() == comparison(operator, column@, values.deep_view()),
{
    match operator {
        FilterOperator::Equals => Some(write_membership(column, " = ", " IN (", values)),
        FilterOperator::NotEquals => Some(write_membership(column, " <> ", " NOT IN (", values)),
        FilterOperator::Gt => Some(enclose(column, " > ", write_first_literal(values).as_str())),
        FilterOperator::Gte => Some(enclose(column, " >= ", write_first_literal(values).as_str())),
        FilterOperator::Lt => Some(enclose(column, " < ", write_first_literal(values).as_str())),
        FilterOperator::Lte => Some(enclose(column, " <= ", write_first_literal(values).as_str())),
        FilterOperator::IsSet => Some(suffixed(column, " IS NOT NULL")),
        FilterOperator::NotSet => Some(suffixed(column, " IS NULL")),
        FilterOperator::Contains => Some(
            enclose(column, " LIKE ", write_anywhere(values).as_str()),
        ),
        FilterOperator::NotContains => Some(
            enclose(column, " NOT LIKE ", write_anywhere(values).as_str()),
        ),
        FilterOperator::InDateRange
        | FilterOperator::NotInDateRange
        | FilterOperator::BeforeDate
        | FilterOperator::AfterDate => None,
    }
}

fn write_bracketed(parts: &Vec<String>, separator: &str) -> (r: Option<String>)
    ensures
        r.deep_view() == bracketed(parts.deep_view(), separator@),
{
    if parts.len() == 0 {
        None
    } else {
        Some(enclose("(", join(parts, separator).as_str(), ")"))
    }
}

/// Writes the condition for a filter, where it can be put in SQL.
pub fn render_filter_sql(filter: &QueryFilter, entry: &LocalRollupEntry, dialect: &Dialect) -> (r:
    Option<String>)
    ensures
        r.deep_view() == condition(filter.deep_view(), entry.deep_view(), *dialect),
    decreases filter,
{
    if let (Some(member), Some(operator)) = (&filter.member, &filter.operator) {
        let name = name_of_member(member.as_str());
        match find_filter_column(entry, dialect, name.as_str()) {
            Some(column) => write_comparison(*operator, column.as_str(), &filter.values),
            None => None,
        }
    } else if let Some(parts) = &filter.and {
        assert(filter.deep_view().and->0 =~= parts.deep_view());
        assert(decreases_to!(*filter => filter.and));
        assert(*parts == filter.and->0);
        assert(decreases_to!(filter.and => filter.and->0));
        write_bracketed(&render_filters(parts, entry, dialect), " AND ")
    } else if let Some(parts) = &filter.or {
        assert(filter.deep_view().or->0 =~= parts.deep_view());
        assert(decreases_to!(*filter => filter.or));
        assert(*parts == filter.or->0);
        assert(decreases_to!(filter.or => filter.or->0));
        write_bracketed(&render_filters(parts, entry, dialect), " OR ")
    } else {
        None
    }
}

/// Writes the conditions for those of the filters that can be put in SQL.
fn render_filters(filters: &Vec<QueryFilter>, entry: &LocalRollupEntry, dialect: &Dialect) -> (r:
    Vec<String>)
    ensures
        r.deep_view() == conditions(filters.deep_view(), entry.deep_view(), *dialect),
    decreases filters,
{
    let ghost all = filters.deep_view();
    let mut r: Vec<String> = Vec::new();
    let mut i: usize = 0;
    assert(r.deep_view() =~= conditions(all.take(0), entry.deep_view(), *dialect));
    while i < filters.len()
        invariant
            i <= filters@.len(),
            all == filters.deep_view(),
            r.deep_view() == conditions(all.take(i as int), entry.deep_view(), *dialect),
        decreases filters@.len() - i,
    {
        let filter: &QueryFilter = &filters[i];
        assert(all.take(i + 1).drop_last() =~= all.take(i as int));
        assert(all.take(i + 1).last() == filter.deep_view());
        if let Some(sql) = render_filter_sql(filter, entry, dialect) {
            push_text(&mut r, sql);
        }
        i += 1;
    }
    assert(all.take(i as int) =~= all);
    r
}

/// Writes the `WHERE` clause of a query on a rollup's table.
pub fn build_reagg_where_clause(
    request: &QueryRequest,
    entry: &LocalRollupEntry,
    dialect: &Dialect,
) -> (r: String)
    ensures
        r@ == where_clause(request.deep_view(), entry.deep_view(), *dialect),
{
    let parts = render_filters(&request.filters, entry, dialect);
    if parts.len() == 0 {
        String::new()
    } else {
        suffixed("\nWHERE ", join(&parts, " AND ").as_str())
    }
}

/// Reads an SQL string after its opening quote: what it holds, and what follows
/// its closing quote. Two quotes in a row stand for one.
pub open spec fn read_string(s: Text) -> Option<(Text, Text)>
    decreases s.len(),
{
    if s.len() == 0 {
        None
    } else if s[0] != '\'' {
        match read_string(s.skip(1)) {
            Some((value, rest)) => Some((seq![s[0]] + value, rest)),
            None => None,
        }
    } else if s.len() > 1 && s[1] == '\'' {
        match read_string(s.skip(2)) {
            Some((value, rest)) => Some((seq!['\''] + value, rest)),
            None => None,
        }
    } else {
        Some((Seq::empty(), s.skip(1)))
    }
}

/// What is written after the opening quote of a string reads back.
proof fn lemma_escaped_reads_back(value: Text, rest: Text)
    requires
        rest.len() == 0 || rest[0] != '\'',
    ensures
        read_string(escaped(value) + "'"@ + rest) == Some((value, rest)),
    decreases value.len(),
{
    reveal_strlit("'");
    reveal_strlit("''");
    let s = escaped(value) + "'"@ + rest;
    if value.len() == 0 {
        assert(s =~= "'"@ + rest);
        assert(s.skip(1) =~= rest);
        assert(value =~= Seq::<char>::empty());
    } else {
        let first = seq![value[0]];
        let tail = value.skip(1);
        assert(value =~= first + tail);
        lemma_replaced_concat(first, tail, '\'', "''"@);
        lemma_escaped_reads_back(tail, rest);
        assert(replaced(first.drop_last(), '\'', "''"@) =~= Seq::empty());
        assert(value =~= seq![value[0]] + tail);
        if value[0] == '\'' {
            assert(replaced(first, '\'', "''"@) =~= "''"@);
            assert(s.skip(2) =~= escaped(tail) + "'"@ + rest);
        } else {
            assert(replaced(first, '\'', "''"@) =~= first);
            assert(s.skip(1) =~= escaped(tail) + "'"@ + rest);
        }
    }
}

/// An SQL string holds the value that it was written for, whatever quotes the
/// value has, and ends where it was closed.
pub proof fn literals_read_back(value: Text, rest: Text)
    requires
        rest.len() == 0 || rest[0] != '\'',
    ensures
        (literal(value) + rest).len() > 0,
        (literal(value) + rest)[0] == '\'',
        read_string((literal(value) + rest).skip(1)) == Some((value, rest)),
{
    reveal_strlit("'");
    lemma_escaped_reads_back(value, rest);
    assert((literal(value) + rest).skip(1) =~= escaped(value) + "'"@ + rest);
}

} // verus!
