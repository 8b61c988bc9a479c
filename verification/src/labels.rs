//! The lines of text that a front end shows for a state: which connection
//! status to announce, and how the errors, a column and a table are worded.

use crate::state::{ColumnDetails, ColumnModel, DatabaseViewer, TableDetails, ViewerModel};
use crate::text::{decimal, signed_text};
use vstd::prelude::*;

verus! {

/// What the status line announces.
#[derive(Debug, Clone, Copy, PartialEq, Eq, Structural)]
pub enum Status {
    /// No pool, and no attempt to open one under way: offer to connect.
    Disconnected,
    /// An operation is in flight.
    Loading,
    /// Connected and at rest.
    Connected,
}

/// The status of a state.
pub open spec fn status_of<P>(s: ViewerModel<P>) -> Status {
    if s.pool is None && !s.loading_tables {
        Status::Disconnected
    } else if s.busy() {
        Status::Loading
    } else {
        Status::Connected
    }
}

/// `line` with one more error: after `Error: ` when it is the first, after
/// `; ` when others stand before it. Without an error the line stays as it is.
pub open spec fn with_error(line: Seq<char>, error: Option<Seq<char>>) -> Seq<char> {
    match error {
        Some(e) => if line.len() == 0 {
            "Error: "@ + e
        } else {
            line + "; "@ + e
        },
        None => line,
    }
}

/// The line that shows the errors of a state: those that are set, in the
/// order connection, list of tables, selected table, sample; empty when
/// none is set.
pub open spec fn error_line_text<P>(s: ViewerModel<P>) -> Seq<char> {
    with_error(
        with_error(
            with_error(with_error(Seq::<char>::empty(), s.connection_error), s.tables_error),
            s.details_error,
        ),
        s.top_rows_error,
    )
}

/// The line that shows a column: its name, its type, and a mark when it
/// accepts nulls.
pub open spec fn column_line_text(column: ColumnModel) -> Seq<char> {
    column.name + ": "@ + column.data_type + if column.is_nullable {
        " (nullable)"@
    } else {
        Seq::<char>::empty()
    }
}

/// The heading of a table.
pub open spec fn table_title_text(name: Seq<char>) -> Seq<char> {
    "Table: "@ + name
}

/// The line that shows how many rows a table has.
pub open spec fn row_count_line_text(row_count: int) -> Seq<char> {
    "Row count: "@ + decimal(row_count)
}

impl<P> DatabaseViewer<P> {
    /// What the status line announces.
    pub fn status(&self) -> (status: Status)
        ensures
            status == status_of(self@),
    {
        if self.pool.is_none() && !self.loading_tables {
            Status::Disconnected
        } else if self.loading_tables || self.loading_details || self.loading_top_rows {
            Status::Loading
        } else {
            Status::Connected
        }
    }

    /// The line for the errors that are set; empty when there is none.
    pub fn error_line(&self) -> (line: String)
        ensures
            line@ == error_line_text(self@),
    {
        let mut line = String::new();
        add_error(&mut line, &self.connection_error);
        add_error(&mut line, &self.tables_error);
        add_error(&mut line, &self.details_error);
        add_error(&mut line, &self.top_rows_error);
        line
    }
}

/// Adds one error, if there is one, to the line.
fn add_error(line: &mut String, error: &Option<String>)
    ensures
        final(line)@ == with_error(old(line)@, error.deep_view()),
{
    if let Some(e) = error {
        if line.as_str().is_empty() {
            line.append("Error: ");
        } else {
            line.append("; ");
        }
        line.append(e.as_str());
    }
}

impl ColumnDetails {
    /// The line that shows the column.
    pub fn line(&self) -> (line: String)
        ensures
            line@ == column_line_text(self@),
    {
        let mut line = self.name.clone();
        line.append(": ");
        line.append(self.data_type.as_str());
        if self.is_nullable {
            line.append(" (nullable)");
        }
        line
    }
}

impl TableDetails {
    /// The heading of the table.
    pub fn title(&self) -> (line: String)
        ensures
            line@ == table_title_text(self@.name),
    {
        let mut line = String::from_str("Table: ");
        line.append(self.name.as_str());
        line
    }

    /// The line that shows how many rows the table has.
    pub fn row_count_line(&self) -> (line: String)
        ensures
            line@ == row_count_line_text(self@.row_count),
    {
        let mut line = String::from_str("Row count: ");
        let count = signed_text(self.row_count);
        line.append(count.as_str());
        line
    }
}

} // verus!
