use pg_browser::sql::{
    count_query, top_rows_query, COLUMNS_QUERY, INVALID_TABLE_NAME, TABLES_QUERY,
};

#[test]
fn count_query_quotes_the_name() {
    assert_eq!(
        count_query("accounts"),
        Ok("SELECT COUNT(*) FROM \"accounts\"".to_string())
    );
    assert_eq!(count_query("_T1"), Ok("SELECT COUNT(*) FROM \"_T1\"".to_string()));
}

#[test]
fn top_rows_query_quotes_the_name_and_writes_the_limit() {
    assert_eq!(
        top_rows_query("accounts", 30),
        Ok("SELECT * FROM \"accounts\" LIMIT 30".to_string())
    );
    assert_eq!(
        top_rows_query("accounts", 0),
        Ok("SELECT * FROM \"accounts\" LIMIT 0".to_string())
    );
    assert_eq!(
        top_rows_query("t", 1000),
        Ok("SELECT * FROM \"t\" LIMIT 1000".to_string())
    );
}

#[test]
fn injected_statement_is_refused_by_both_queries() {
    let name = "x; DROP TABLE accounts;";
    assert_eq!(count_query(name), Err("invalid table name".to_string()));
    assert_eq!(top_rows_query(name, 30), Err("invalid table name".to_string()));
}

#[test]
fn names_outside_the_grammar_are_refused() {
    for name in ["", "1abc", "a\"b", "a b", "a--", "public.accounts"] {
        assert_eq!(count_query(name), Err(INVALID_TABLE_NAME.to_string()));
        assert_eq!(top_rows_query(name, 30), Err(INVALID_TABLE_NAME.to_string()));
    }
}

#[test]
fn catalog_queries_read_the_expected_columns() {
    assert_eq!(
        TABLES_QUERY,
        "SELECT table_name FROM information_schema.tables WHERE table_schema = 'public'"
    );
    assert_eq!(
        COLUMNS_QUERY,
        "SELECT column_name, data_type, is_nullable FROM information_schema.columns WHERE table_name = $1"
    );
}
