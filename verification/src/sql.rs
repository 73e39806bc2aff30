//! Parameterised SQL statement text, built for several dialects.
//!
//! A statement is assembled from a table name, column names and a
//! condition; column and table names are quoted in the dialect's style and
//! values always enter as `?` placeholders.

use vstd::prelude::*;
use vstd::string::StringExecFns;

verus! {

/// The SQL dialect a statement is quoted for.
#[derive(Debug, Clone, Copy, PartialEq, Eq, Structural)]
pub enum SqlType {
    Mssql,
    Postgresql,
    Mysql,
    Generic,
}

/// The integer a boolean is stored as.
pub fn bool_to_sql(v: bool) -> (r: i32)
    ensures
        r == if v {
            1int
        } else {
            0int
        },
{
    if v {
        1
    } else {
        0
    }
}

/// A name quoted in the dialect's style.
pub open spec fn incase_name_spec(name: Seq<char>, t: SqlType) -> Seq<char> {
    match t {
        SqlType::Mssql => "["@ + name + "]"@,
        SqlType::Mysql => "`"@ + name + "`"@,
        SqlType::Postgresql => "\""@ + name + "\""@,
        SqlType::Generic => name,
    }
}

pub fn incase_name(name: &str, sql_type: SqlType) -> (r: String)
    ensures
        r@ == incase_name_spec(name@, sql_type),
{
    match sql_type {
        SqlType::Mssql => {
            let mut s = "[".to_owned();
            s.append(name);
            s.append("]");
            proof {
                assert(s@ =~= incase_name_spec(name@, sql_type));
            }
            s
        },
        SqlType::Mysql => {
            let mut s = "`".to_owned();
            s.append(name);
            s.append("`");
            proof {
                assert(s@ =~= incase_name_spec(name@, sql_type));
            }
            s
        },
        SqlType::Postgresql => {
            let mut s = "\"".to_owned();
            s.append(name);
            s.append("\"");
            proof {
                assert(s@ =~= incase_name_spec(name@, sql_type));
            }
            s
        },
        SqlType::Generic => name.to_owned(),
    }
}

/// A value quoted as a string literal; every dialect uses single quotes.
pub fn incase_value(value: &str, _sql_type: SqlType) -> (r: String)
    ensures
        r@ == "'"@ + value@ + "'"@,
{
    let mut s = "'".to_owned();
    s.append(value);
    s.append("'");
    proof {
        assert(s@ =~= "'"@ + value@ + "'"@);
    }
    s
}

/// A table reference, optionally qualified by a database (with the `dbo`
/// schema in the Microsoft dialect).
pub open spec fn table_as_sql_spec(database: Option<String>, table: Seq<char>, t: SqlType) -> Seq<
    char,
> {
    match database {
        Some(db) => if t is Mssql {
            incase_name_spec(db@, t) + ".[dbo]."@ + incase_name_spec(table, t)
        } else {
            incase_name_spec(db@, t) + "."@ + incase_name_spec(table, t)
        },
        None => incase_name_spec(table, t),
    }
}

pub fn table_as_sql(database: &Option<String>, table: &str, sql_type: SqlType) -> (r: String)
    ensures
        r@ == table_as_sql_spec(*database, table@, sql_type),
{
    match database {
        Some(db) => {
            let mut s = incase_name(db.as_str(), sql_type);
            if sql_type == SqlType::Mssql {
                s.append(".[dbo].");
            } else {
                s.append(".");
            }
            let t = incase_name(table, sql_type);
            s.append(t.as_str());
            proof {
                assert(s@ =~= table_as_sql_spec(*database, table@, sql_type));
            }
            s
        },
        None => incase_name(table, sql_type),
    }
}

/// Quoted column names joined with commas.
pub open spec fn columns_spec(values: Seq<String>, t: SqlType) -> Seq<char>
    decreases values.len(),
{
    if values.len() == 0 {
        Seq::empty()
    } else if values.len() == 1 {
        incase_name_spec(values[0]@, t)
    } else {
        columns_spec(values.drop_last(), t) + ","@ + incase_name_spec(values.last()@, t)
    }
}

/// `n` placeholders joined with commas.
pub open spec fn placeholders_spec(n: int) -> Seq<char>
    decreases n,
{
    if n <= 0 {
        Seq::empty()
    } else if n == 1 {
        "?"@
    } else {
        placeholders_spec(n - 1) + ","@ + "?"@
    }
}

/// `<column>=?` assignments, one per column, with no separator (as the
/// update builder has always written them).
pub open spec fn set_clause_spec(cols: Seq<String>, t: SqlType) -> Seq<char>
    decreases cols.len(),
{
    if cols.len() == 0 {
        Seq::empty()
    } else {
        set_clause_spec(cols.drop_last(), t) + incase_name_spec(cols.last()@, t) + "=?"@
    }
}

fn join_columns(values: &Vec<String>, sql_type: SqlType) -> (r: String)
    ensures
        r@ == columns_spec(values@, sql_type),
{
    let mut buf = String::new();
    let n = values.len();
    let mut i: usize = 0;
    #[verifier::loop_isolation(false)]
    while i < n
        invariant
            0 <= i <= n,
            i == 0 ==> buf@ == Seq::<char>::empty(),
            0 < i < n ==> buf@ == columns_spec(values@.take(i as int), sql_type) + ","@,
            i == n && n > 0 ==> buf@ == columns_spec(values@, sql_type),
        decreases n - i,
    {
        let item = &values[i];
        let inc = incase_name(item.as_str(), sql_type);
        buf.append(inc.as_str());
        proof {
            assert(values@.take(i + 1).drop_last() =~= values@.take(i as int));
            assert(values@.take(i + 1).last() == values@[i as int]);
            if i == 0 {
                assert(buf@ =~= columns_spec(values@.take(1), sql_type));
            } else {
                assert(buf@ =~= columns_spec(values@.take(i + 1), sql_type));
            }
            if i + 1 == n {
                assert(values@.take(n as int) =~= values@);
            }
        }
        if i + 1 < n {
            buf.append(",");
        }
        i = i + 1;
    }
    buf
}

fn join_placeholders(n: usize) -> (r: String)
    ensures
        r@ == placeholders_spec(n as int),
{
    let mut buf = String::new();
    let mut i: usize = 0;
    #[verifier::loop_isolation(false)]
    while i < n
        invariant
            0 <= i <= n,
            i == 0 ==> buf@ == Seq::<char>::empty(),
            0 < i < n ==> buf@ == placeholders_spec(i as int) + ","@,
            i == n && n > 0 ==> buf@ == placeholders_spec(n as int),
        decreases n - i,
    {
        buf.append("?");
        proof {
            if i == 0 {
                assert(buf@ =~= placeholders_spec(1));
            } else {
                assert(buf@ =~= placeholders_spec(i + 1));
            }
        }
        if i + 1 < n {
            buf.append(",");
        }
        i = i + 1;
    }
    buf
}

fn join_set_clause(cols: &Vec<String>, sql_type: SqlType) -> (r: String)
    ensures
        r@ == set_clause_spec(cols@, sql_type),
{
    let mut buf = String::new();
    let n = cols.len();
    let mut i: usize = 0;
    #[verifier::loop_isolation(false)]
    while i < n
        invariant
            0 <= i <= n,
            buf@ == set_clause_spec(cols@.take(i as int), sql_type),
        decreases n - i,
    {
        let item = &cols[i];
        let inc = incase_name(item.as_str(), sql_type);
        buf.append(inc.as_str());
        buf.append("=?");
        proof {
            assert(cols@.take(i + 1).drop_last() =~= cols@.take(i as int));
            assert(cols@.take(i + 1).last() == cols@[i as int]);
            assert(buf@ =~= set_clause_spec(cols@.take(i + 1), sql_type));
        }
        i = i + 1;
    }
    proof {
        assert(cols@.take(n as int) =~= cols@);
    }
    buf
}

/// An `INSERT` statement under construction.
#[derive(Debug)]
pub struct SqlInsert {
    pub database: Option<String>,
    pub table: String,
    pub values: Vec<String>,
}

/// The full text an insert renders to.
pub open spec fn insert_sql_spec(ins: SqlInsert, t: SqlType) -> Seq<char> {
    "INSERT INTO "@ + table_as_sql_spec(ins.database, ins.table@, t) + " ("@ + columns_spec(
        ins.values@,
        t,
    ) + ") VALUES("@ + placeholders_spec(ins.values@.len() as int) + ")"@
}

impl SqlInsert {
    pub fn new(table: &str, values: Vec<String>) -> (s: Self)
        ensures
            s.database is None,
            s.table@ == table@,
            s.values@ == values@,
    {
        Self { database: None, table: table.to_owned(), values }
    }

    pub fn new_with_db(database: &str, table: &str, values: Vec<String>) -> (s: Self)
        ensures
            s.database matches Some(db) && db@ == database@,
            s.table@ == table@,
            s.values@ == values@,
    {
        Self { database: Some(database.to_owned()), table: table.to_owned(), values }
    }

    pub fn as_sql(self, sql_type: SqlType) -> (r: String)
        ensures
            r@ == insert_sql_spec(self, sql_type),
    {
        let columns = join_columns(&self.values, sql_type);
        let values = join_placeholders(self.values.len());
        let mut sql = "INSERT INTO ".to_owned();
        let t = table_as_sql(&self.database, self.table.as_str(), sql_type);
        sql.append(t.as_str());
        sql.append(" (");
        sql.append(columns.as_str());
        sql.append(") VALUES(");
        sql.append(values.as_str());
        sql.append(")");
        proof {
            assert(sql@ =~= insert_sql_spec(self, sql_type));
        }
        sql
    }
}

/// A `SELECT` statement under construction.
#[derive(Debug)]
pub struct SqlSelect {
    pub database: Option<String>,
    pub table: String,
    pub values: Vec<String>,
    pub condition: String,
}

/// The full text a select renders to.
pub open spec fn select_sql_spec(sel: SqlSelect, t: SqlType) -> Seq<char> {
    "SELECT "@ + columns_spec(sel.values@, t) + " FROM "@ + table_as_sql_spec(
        sel.database,
        sel.table@,
        t,
    ) + " "@ + sel.condition@ + ";"@
}

impl SqlSelect {
    pub fn new(table: &str, values: Vec<String>, condition: &str) -> (s: Self)
        ensures
            s.database is None,
            s.table@ == table@,
            s.values@ == values@,
            s.condition@ == condition@,
    {
        Self { database: None, table: table.to_owned(), values, condition: condition.to_owned() }
    }

    pub fn new_with_db(database: &str, table: &str, values: Vec<String>, condition: &str) -> (s:
        Self)
        ensures
            s.database matches Some(db) && db@ == database@,
            s.table@ == table@,
            s.values@ == values@,
            s.condition@ == condition@,
    {
        Self {
            database: Some(database.to_owned()),
            table: table.to_owned(),
            values,
            condition: condition.to_owned(),
        }
    }

    pub fn as_sql(self, sql_type: SqlType) -> (r: String)
        ensures
            r@ == select_sql_spec(self, sql_type),
    {
        let columns = join_columns(&self.values, sql_type);
        let mut sql = "SELECT ".to_owned();
        sql.append(columns.as_str());
        sql.append(" FROM ");
        let t = table_as_sql(&self.database, self.table.as_str(), sql_type);
        sql.append(t.as_str());
        sql.append(" ");
        sql.append(self.condition.as_str());
        sql.append(";");
        proof {
            assert(sql@ =~= select_sql_spec(self, sql_type));
        }
        sql
    }
}

/// An `UPDATE` statement under construction.
#[derive(Debug)]
pub struct SqlUpdate {
    pub database: Option<String>,
    pub table: String,
    pub columns: Vec<String>,
    pub condition: String,
}

/// The full text an update renders to.
pub open spec fn update_sql_spec(upd: SqlUpdate, t: SqlType) -> Seq<char> {
    "UPDATE "@ + table_as_sql_spec(upd.database, upd.table@, t) + " SET "@ + set_clause_spec(
        upd.columns@,
        t,
    ) + " "@ + upd.condition@ + ";"@
}

impl SqlUpdate {
    pub fn new(table: &str, columns: Vec<String>, condition: &str) -> (s: Self)
        ensures
            s.database is None,
            s.table@ == table@,
            s.columns@ == columns@,
            s.condition@ == condition@,
    {
        Self { database: None, table: table.to_owned(), columns, condition: condition.to_owned() }
    }

    pub fn new_with_db(database: &str, table: &str, columns: Vec<String>, condition: &str) -> (s:
        Self)
        ensures
            s.database matches Some(db) && db@ == database@,
            s.table@ == table@,
            s.columns@ == columns@,
            s.condition@ == condition@,
    {
        Self {
            database: Some(database.to_owned()),
            table: table.to_owned(),
            columns,
            condition: condition.to_owned(),
        }
    }

    pub fn as_sql(self, sql_type: SqlType) -> (r: String)
        ensures
            r@ == update_sql_spec(self, sql_type),
    {
        let clause = join_set_clause(&self.columns, sql_type);
        let mut sql = "UPDATE ".to_owned();
        let t = table_as_sql(&self.database, self.table.as_str(), sql_type);
        sql.append(t.as_str());
        sql.append(" SET ");
        sql.append(clause.as_str());
        sql.append(" ");
        sql.append(self.condition.as_str());
        sql.append(";");
        proof {
            assert(sql@ =~= update_sql_spec(self, sql_type));
        }
        sql
    }
}

} // verus!
