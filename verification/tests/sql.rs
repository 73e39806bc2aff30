use srfax_sync::sql::bool_to_sql;
use srfax_sync::sql::incase_name;
use srfax_sync::sql::incase_value;
use srfax_sync::sql::table_as_sql;
use srfax_sync::sql::SqlInsert;
use srfax_sync::sql::SqlSelect;
use srfax_sync::sql::SqlType;
use srfax_sync::sql::SqlUpdate;

fn cols(names: &[&str]) -> Vec<String> {
    names.iter().map(|n| n.to_string()).collect()
}

#[test]
fn bool_to_sql_values() {
    assert_eq!(bool_to_sql(true), 1);
    assert_eq!(bool_to_sql(false), 0);
}

#[test]
fn incase_name_per_dialect() {
    assert_eq!(incase_name("col", SqlType::Mssql), "[col]");
    assert_eq!(incase_name("col", SqlType::Mysql), "`col`");
    assert_eq!(incase_name("col", SqlType::Postgresql), "\"col\"");
    assert_eq!(incase_name("col", SqlType::Generic), "col");
}

#[test]
fn incase_value_quotes() {
    assert_eq!(incase_value("v", SqlType::Mssql), "'v'");
    assert_eq!(incase_value("v", SqlType::Generic), "'v'");
}

#[test]
fn table_with_database_mssql_uses_dbo() {
    assert_eq!(
        table_as_sql(&Some("db".to_string()), "t", SqlType::Mssql),
        "[db].[dbo].[t]"
    );
}

#[test]
fn table_with_database_other_dialects() {
    assert_eq!(
        table_as_sql(&Some("db".to_string()), "t", SqlType::Mysql),
        "`db`.`t`"
    );
    assert_eq!(table_as_sql(&None, "t", SqlType::Postgresql), "\"t\"");
}

#[test]
fn insert_renders_columns_and_placeholders() {
    let sql = SqlInsert::new("people", cols(&["name", "age"])).as_sql(SqlType::Mssql);
    assert_eq!(sql, "INSERT INTO [people] ([name],[age]) VALUES(?,?)");
}

#[test]
fn insert_with_database() {
    let sql = SqlInsert::new_with_db("db", "t", cols(&["a"])).as_sql(SqlType::Mysql);
    assert_eq!(sql, "INSERT INTO `db`.`t` (`a`) VALUES(?)");
}

#[test]
fn insert_with_no_columns() {
    let sql = SqlInsert::new("t", cols(&[])).as_sql(SqlType::Generic);
    assert_eq!(sql, "INSERT INTO t () VALUES()");
}

#[test]
fn select_renders_condition() {
    let sql = SqlSelect::new("t", cols(&["a", "b", "c"]), "WHERE a=?").as_sql(SqlType::Generic);
    assert_eq!(sql, "SELECT a,b,c FROM t WHERE a=?;");
}

#[test]
fn select_with_database() {
    let sql =
        SqlSelect::new_with_db("db", "t", cols(&["a"]), "WHERE x=?").as_sql(SqlType::Postgresql);
    assert_eq!(sql, "SELECT \"a\" FROM \"db\".\"t\" WHERE x=?;");
}

#[test]
fn update_renders_set_clause() {
    let sql = SqlUpdate::new("t", cols(&["a"]), "WHERE id=?").as_sql(SqlType::Mssql);
    assert_eq!(sql, "UPDATE [t] SET [a]=? WHERE id=?;");
}

#[test]
fn update_concatenates_columns_without_separator() {
    let sql = SqlUpdate::new("t", cols(&["a", "b"]), "WHERE id=?").as_sql(SqlType::Generic);
    assert_eq!(sql, "UPDATE t SET a=?b=? WHERE id=?;");
}
