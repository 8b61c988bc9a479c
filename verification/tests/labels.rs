use pg_browser::labels::Status;
use pg_browser::state::{ColumnDetails, DatabaseViewer, TableDetails};

type Viewer = DatabaseViewer<u32>;

#[test]
fn status_without_a_pool_is_disconnected() {
    assert_eq!(Viewer::default().status(), Status::Disconnected);
}

#[test]
fn status_while_connecting_is_loading() {
    let mut viewer = Viewer::default();
    viewer.loading_tables = true;
    assert_eq!(viewer.status(), Status::Loading);
}

#[test]
fn status_without_a_pool_ignores_the_other_flags() {
    let mut viewer = Viewer::default();
    viewer.loading_details = true;
    viewer.loading_top_rows = true;
    assert_eq!(viewer.status(), Status::Disconnected);
}

#[test]
fn status_with_a_pool_follows_the_flags() {
    let mut viewer = Viewer::default();
    viewer.pool = Some(1);
    assert_eq!(viewer.status(), Status::Connected);
    viewer.loading_details = true;
    assert_eq!(viewer.status(), Status::Loading);
    viewer.loading_details = false;
    viewer.loading_top_rows = true;
    assert_eq!(viewer.status(), Status::Loading);
    viewer.loading_top_rows = false;
    viewer.loading_tables = true;
    assert_eq!(viewer.status(), Status::Loading);
}

#[test]
fn error_line_is_empty_without_an_error() {
    assert_eq!(Viewer::default().error_line(), "");
}

#[test]
fn error_line_shows_the_error_of_each_resource() {
    let mut viewer = Viewer::default();
    viewer.connection_error = Some("connection refused".to_string());
    assert_eq!(viewer.error_line(), "Error: connection refused");

    let mut viewer = Viewer::default();
    viewer.tables_error = Some("listing failed".to_string());
    assert_eq!(viewer.error_line(), "Error: listing failed");

    let mut viewer = Viewer::default();
    viewer.details_error = Some("invalid table name".to_string());
    assert_eq!(viewer.error_line(), "Error: invalid table name");

    let mut viewer = Viewer::default();
    viewer.top_rows_error = Some("gone".to_string());
    assert_eq!(viewer.error_line(), "Error: gone");
}

#[test]
fn error_line_joins_the_errors_that_are_set() {
    let mut viewer = Viewer::default();
    viewer.tables_error = Some("listing failed".to_string());
    viewer.top_rows_error = Some("gone".to_string());
    assert_eq!(viewer.error_line(), "Error: listing failed; gone");
    viewer.connection_error = Some("down".to_string());
    viewer.details_error = Some("no such table".to_string());
    assert_eq!(viewer.error_line(), "Error: down; listing failed; no such table; gone");
}

#[test]
fn error_line_keeps_an_empty_error() {
    let mut viewer = Viewer::default();
    viewer.connection_error = Some(String::new());
    viewer.tables_error = Some("t".to_string());
    assert_eq!(viewer.error_line(), "Error: ; t");
}

#[test]
fn status_right_after_boot_is_loading() {
    let (viewer, _) = pg_browser::orchestrator::boot::<u32>();
    assert_eq!(viewer.status(), Status::Loading);
}

#[test]
fn column_line_marks_nullable_columns() {
    let nullable = ColumnDetails {
        name: "name".to_string(),
        data_type: "text".to_string(),
        is_nullable: true,
    };
    assert_eq!(nullable.line(), "name: text (nullable)");
    let required = ColumnDetails {
        name: "id".to_string(),
        data_type: "integer".to_string(),
        is_nullable: false,
    };
    assert_eq!(required.line(), "id: integer");
}

#[test]
fn table_lines_show_name_and_count() {
    let details = TableDetails {
        name: "accounts".to_string(),
        columns: Vec::new(),
        row_count: 1234,
        rows: None,
    };
    assert_eq!(details.title(), "Table: accounts");
    assert_eq!(details.row_count_line(), "Row count: 1234");
}

#[test]
fn row_count_line_of_zero() {
    let details =
        TableDetails { name: "t".to_string(), columns: Vec::new(), row_count: 0, rows: None };
    assert_eq!(details.row_count_line(), "Row count: 0");
}
