use crate::text::{joined, decimal, decimal_string};
use vstd::prelude::*;
use vstd::string::*;

verus! {

/// The number of rows that `head` shows where the user names none.
pub const DEFAULT_HEAD_ROWS: usize = 5;

/// The query that lists the registered datasets.
pub const LIST_QUERY: &'static str =
    "select table_name, table_type from information_schema.tables where table_schema = 'public'";

/// Options of the `describe` command: the dataset to summarise.
#[derive(Debug)]
pub struct DescribeOpts {
    pub name: String,
}

impl DescribeOpts {
    pub fn new(name: String) -> (opts: Self)
        ensures
            opts.name == name,
    {
        Self { name }
    }

    /// The query that reads the whole dataset.
    pub fn query(&self) -> (sql: String)
        ensures
            sql@ == "select * from "@ + self.name@,
    {
        joined("select * from ", self.name.as_str())
    }
}

/// Options of the `head` command: the dataset and how many rows to show.
#[derive(Debug)]
pub struct HeadOpts {
    pub name: String,
    pub n: Option<usize>,
}

impl HeadOpts {
    pub fn new(name: String, n: Option<usize>) -> (opts: Self)
        ensures
            opts.name == name,
            opts.n == n,
    {
        Self { name, n }
    }

    /// How many rows to show: the number asked for, or the default.
    pub open spec fn spec_rows(&self) -> usize {
        match self.n {
            Some(n) => n,
            None => DEFAULT_HEAD_ROWS,
        }
    }

    /// How many rows to show: the number asked for, or the default.
    pub fn rows(&self) -> (n: usize)
        ensures
            n == self.spec_rows(),
    {
        match self.n {
            Some(n) => n,
            None => DEFAULT_HEAD_ROWS,
        }
    }

    /// The query that reads the first rows of the dataset.
    pub fn query(&self) -> (sql: String)
        ensures
            sql@ == "SELECT * FROM "@ + self.name@ + " LIMIT "@ + decimal(self.spec_rows() as nat),
    {
        let mut sql = joined("SELECT * FROM ", self.name.as_str());
        sql.append(" LIMIT ");
        let limit = decimal_string(self.rows() as u64);
        sql.append(limit.as_str());
        sql
    }
}

/// Options of the `list` command, which takes none.
#[derive(Debug)]
pub struct ListOpts;

impl ListOpts {
    /// The query that lists the registered datasets.
    pub fn query(&self) -> (sql: String)
        ensures
            sql@ == LIST_QUERY@,
    {
        String::from_str(LIST_QUERY)
    }
}

/// Options of the `schema` command: the dataset whose columns are listed.
#[derive(Debug)]
pub struct SchemaOpts {
    pub name: String,
}

impl SchemaOpts {
    pub fn new(name: String) -> (opts: Self)
        ensures
            opts.name == name,
    {
        Self { name }
    }

    /// The query that lists the columns of the dataset.
    pub fn query(&self) -> (sql: String)
        ensures
            sql@ == "DESCRIBE "@ + self.name@,
    {
        joined("DESCRIBE ", self.name.as_str())
    }
}

/// Options of the `sql` command: the query text.
#[derive(Debug)]
pub struct SqlOpts {
    pub query: String,
}

impl SqlOpts {
    pub fn new(query: String) -> (opts: Self)
        ensures
            opts.query == query,
    {
        Self { query }
    }
}

} // verus!
