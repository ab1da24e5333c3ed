//! What differs between the SQL of the supported databases.

use vstd::prelude::*;

use crate::text::{enclose, same_text, to_upper, upper, Text};

verus! {

/// A supported database.
#[derive(Clone, Copy, Debug, PartialEq, Eq, Structural)]
pub enum Dialect {
    Postgres,
    MySQL,
    BigQuery,
    Snowflake,
    DuckDB,
    ClickHouse,
    Databricks,
    Redshift,
    SQLite,
    Domo,
    Presto,
}

/// `DATE_FORMAT(expr, 'pattern')`.
pub open spec fn date_format(expr: Text, pattern: Text) -> Text {
    "DATE_FORMAT("@ + expr + ", '"@ + pattern + "')"@
}

/// `function(expr)`.
pub open spec fn call(function: Text, expr: Text) -> Text {
    function + "("@ + expr + ")"@
}

/// MySQL has no truncation function: the date is formatted with its finer
/// parts fixed. An unknown granularity leaves `expr` as it is.
pub open spec fn mysql_truncated(granularity: Text, expr: Text) -> Text {
    if granularity == "second"@ {
        date_format(expr, "%Y-%m-%d %H:%i:%s"@)
    } else if granularity == "minute"@ {
        date_format(expr, "%Y-%m-%d %H:%i:00"@)
    } else if granularity == "hour"@ {
        date_format(expr, "%Y-%m-%d %H:00:00"@)
    } else if granularity == "day"@ {
        date_format(expr, "%Y-%m-%d 00:00:00"@)
    } else if granularity == "week"@ {
        date_format(
            "DATE_SUB("@ + expr + ", INTERVAL WEEKDAY("@ + expr + ") DAY)"@,
            "%Y-%m-%d 00:00:00"@,
        )
    } else if granularity == "month"@ {
        date_format(expr, "%Y-%m-01 00:00:00"@)
    } else if granularity == "quarter"@ {
        date_format(
            "MAKEDATE(YEAR("@ + expr + "), 1) + INTERVAL (QUARTER("@ + expr + ") - 1) QUARTER"@,
            "%Y-%m-01 00:00:00"@,
        )
    } else if granularity == "year"@ {
        date_format(expr, "%Y-01-01 00:00:00"@)
    } else {
        expr
    }
}

/// ClickHouse has one function for each granularity, and `dateTrunc` beside
/// them.
pub open spec fn clickhouse_truncated(granularity: Text, expr: Text) -> Text {
    if granularity == "second"@ {
        call("toStartOfSecond"@, expr)
    } else if granularity == "minute"@ {
        call("toStartOfMinute"@, expr)
    } else if granularity == "hour"@ {
        call("toStartOfHour"@, expr)
    } else if granularity == "day"@ {
        call("toStartOfDay"@, expr)
    } else if granularity == "week"@ {
        call("toMonday"@, expr)
    } else if granularity == "month"@ {
        call("toStartOfMonth"@, expr)
    } else if granularity == "quarter"@ {
        call("toStartOfQuarter"@, expr)
    } else if granularity == "year"@ {
        call("toStartOfYear"@, expr)
    } else {
        "dateTrunc('"@ + granularity + "', "@ + expr + ")"@
    }
}

impl Dialect {
    /// `name` as a quoted identifier. Snowflake folds identifiers to upper case.
    pub open spec fn quoted(self, name: Text) -> Text {
        match self {
            Dialect::MySQL
            | Dialect::BigQuery
            | Dialect::Databricks
            | Dialect::Domo => "`"@ + name + "`"@,
            Dialect::Snowflake => "\""@ + upper(name) + "\""@,
            _ => "\""@ + name + "\""@,
        }
    }

    /// `schema.table`, both quoted.
    pub open spec fn qualified(self, schema: Text, table: Text) -> Text {
        self.quoted(schema) + "."@ + self.quoted(table)
    }

    /// `expr` cut down to the start of its `granularity`.
    pub open spec fn truncated(self, granularity: Text, expr: Text) -> Text {
        match self {
            Dialect::MySQL | Dialect::Domo => mysql_truncated(granularity, expr),
            Dialect::ClickHouse => clickhouse_truncated(granularity, expr),
            Dialect::BigQuery => "TIMESTAMP_TRUNC("@ + expr + ", "@ + upper(granularity) + ")"@,
            Dialect::Snowflake | Dialect::Presto => "DATE_TRUNC('"@ + granularity + "', "@ + expr
                + ")"@,
            _ => "date_trunc('"@ + granularity + "', "@ + expr + ")"@,
        }
    }

    /// The type that fractions are computed in.
    pub open spec fn double_type(self) -> Text {
        match self {
            Dialect::Postgres | Dialect::Redshift => "DOUBLE PRECISION"@,
            Dialect::BigQuery => "FLOAT64"@,
            Dialect::ClickHouse => "Float64"@,
            Dialect::MySQL | Dialect::Domo => "DECIMAL(38,10)"@,
            _ => "DOUBLE"@,
        }
    }

    /// `expr` converted to the dialect's `double_type`.
    pub open spec fn as_double(self, expr: Text) -> Text {
        "CAST("@ + expr + " AS "@ + self.double_type() + ")"@
    }

    /// The statement that makes a schema exist. BigQuery has none.
    pub open spec fn schema_ddl(self, schema: Text) -> Option<Text> {
        match self {
            Dialect::BigQuery => None,
            Dialect::ClickHouse => Some("CREATE DATABASE IF NOT EXISTS "@ + self.quoted(schema)),
            _ => Some("CREATE SCHEMA IF NOT EXISTS "@ + self.quoted(schema)),
        }
    }

    /// Quotes an identifier.
    pub fn quote_identifier(&self, name: &str) -> (r: String)
        ensures
            r@ == self.quoted(name@),
    {
        match self {
            Dialect::MySQL
            | Dialect::BigQuery
            | Dialect::Databricks
            | Dialect::Domo => enclose("`", name, "`"),
            Dialect::Snowflake => enclose("\"", to_upper(name).as_str(), "\""),
            _ => enclose("\"", name, "\""),
        }
    }

    /// Writes a table's name with its schema.
    pub fn qualify_table(&self, schema: &str, table: &str) -> (r: String)
        ensures
            r@ == self.qualified(schema@, table@),
    {
        let mut r = self.quote_identifier(schema);
        r.append(".");
        r.append(self.quote_identifier(table).as_str());
        r
    }

    /// Writes the truncation of `expr` to a granularity.
    pub fn date_trunc(&self, granularity: &str, expr: &str) -> (r: String)
        ensures
            r@ == self.truncated(granularity@, expr@),
    {
        match self {
            Dialect::MySQL | Dialect::Domo => mysql_date_trunc(granularity, expr),
            Dialect::ClickHouse => clickhouse_date_trunc(granularity, expr),
            Dialect::BigQuery => {
                let mut r = "TIMESTAMP_TRUNC(".to_string();
                r.append(expr);
                r.append(", ");
                r.append(to_upper(granularity).as_str());
                r.append(")");
                r
            },
            Dialect::Snowflake | Dialect::Presto => named_trunc("DATE_TRUNC('", granularity, expr),
            _ => named_trunc("date_trunc('", granularity, expr),
        }
    }

    /// Writes the conversion of `expr` to a type with fractions.
    pub fn cast_to_double(&self, expr: &str) -> (r: String)
        ensures
            r@ == self.as_double(expr@),
    {
        let double_type: &str = match self {
            Dialect::Postgres | Dialect::Redshift => "DOUBLE PRECISION",
            Dialect::BigQuery => "FLOAT64",
            Dialect::ClickHouse => "Float64",
            Dialect::MySQL | Dialect::Domo => "DECIMAL(38,10)",
            _ => "DOUBLE",
        };
        let mut r = enclose("CAST(", expr, " AS ");
        r.append(double_type);
        r.append(")");
        r
    }

    /// Writes the statement that makes a schema exist, where there is one.
    pub fn create_schema_ddl(&self, schema: &str) -> (r: Option<String>)
        ensures
            r.deep_view() == self.schema_ddl(schema@),
    {
        match self {
            Dialect::BigQuery => None,
            Dialect::ClickHouse => {
                let mut r = "CREATE DATABASE IF NOT EXISTS ".to_string();
                r.append(self.quote_identifier(schema).as_str());
                Some(r)
            },
            _ => {
                let mut r = "CREATE SCHEMA IF NOT EXISTS ".to_string();
                r.append(self.quote_identifier(schema).as_str());
                Some(r)
            },
        }
    }
}

fn named_trunc(function: &str, granularity: &str, expr: &str) -> (r: String)
    ensures
        r@ == function@ + granularity@ + "', "@ + expr@ + ")"@,
{
    let mut r = enclose(function, granularity, "', ");
    r.append(expr);
    r.append(")");
    r
}

fn write_date_format(expr: &str, pattern: &str) -> (r: String)
    ensures
        r@ == date_format(expr@, pattern@),
{
    let mut r = enclose("DATE_FORMAT(", expr, ", '");
    r.append(pattern);
    r.append("')");
    r
}

fn write_call(function: &str, expr: &str) -> (r: String)
    ensures
        r@ == call(function@, expr@),
{
    let mut r = enclose(function, "(", expr);
    r.append(")");
    r
}

fn mysql_date_trunc(granularity: &str, expr: &str) -> (r: String)
    ensures
        r@ == mysql_truncated(granularity@, expr@),
{
    if same_text(granularity, "second") {
        write_date_format(expr, "%Y-%m-%d %H:%i:%s")
    } else if same_text(granularity, "minute") {
        write_date_format(expr, "%Y-%m-%d %H:%i:00")
    } else if same_text(granularity, "hour") {
        write_date_format(expr, "%Y-%m-%d %H:00:00")
    } else if same_text(granularity, "day") {
        write_date_format(expr, "%Y-%m-%d 00:00:00")
    } else if same_text(granularity, "week") {
        let mut monday = enclose("DATE_SUB(", expr, ", INTERVAL WEEKDAY(");
        monday.append(expr);
        monday.append(") DAY)");
        write_date_format(monday.as_str(), "%Y-%m-%d 00:00:00")
    } else if same_text(granularity, "month") {
        write_date_format(expr, "%Y-%m-01 00:00:00")
    } else if same_text(granularity, "quarter") {
        let mut first = enclose("MAKEDATE(YEAR(", expr, "), 1) + INTERVAL (QUARTER(");
        first.append(expr);
        first.append(") - 1) QUARTER");
        write_date_format(first.as_str(), "%Y-%m-01 00:00:00")
    } else if same_text(granularity, "year") {
        write_date_format(expr, "%Y-01-01 00:00:00")
    } else {
        expr.to_string()
    }
}

fn clickhouse_date_trunc(granularity: &str, expr: &str) -> (r: String)
    ensures
        r@ == clickhouse_truncated(granularity@, expr@),
{
    if same_text(granularity, "second") {
        write_call("toStartOfSecond", expr)
    } else if same_text(granularity, "minute") {
        write_call("toStartOfMinute", expr)
    } else if same_text(granularity, "hour") {
        write_call("toStartOfHour", expr)
    } else if same_text(granularity, "day") {
        write_call("toStartOfDay", expr)
    } else if same_text(granularity, "week") {
        write_call("toMonday", expr)
    } else if same_text(granularity, "month") {
        write_call("toStartOfMonth", expr)
    } else if same_text(granularity, "quarter") {
        write_call("toStartOfQuarter", expr)
    } else if same_text(granularity, "year") {
        write_call("toStartOfYear", expr)
    } else {
        named_trunc("dateTrunc('", granularity, expr)
    }
}

} // verus!
