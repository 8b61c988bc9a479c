//! The descriptors handed to a front end, the viewer's state and the messages
//! that drive it, each with its mathematical model.

use vstd::prelude::*;

verus! {

/// One column of a table, as the catalog reports it.
#[derive(Debug, PartialEq, Eq)]
pub struct ColumnDetails {
    pub name: String,
    pub data_type: String,
    pub is_nullable: bool,
}

/// Model of a [`ColumnDetails`].
pub struct ColumnModel {
    pub name: Seq<char>,
    pub data_type: Seq<char>,
    pub is_nullable: bool,
}

impl View for ColumnDetails {
    type V = ColumnModel;

    open spec fn view(&self) -> ColumnModel {
        ColumnModel { name: self.name@, data_type: self.data_type@, is_nullable: self.is_nullable }
    }
}

impl DeepView for ColumnDetails {
    type V = ColumnModel;

    open spec fn deep_view(&self) -> ColumnModel {
        self@
    }
}

impl Clone for ColumnDetails {
    fn clone(&self) -> (copy: ColumnDetails)
        ensures
            copy@ == self@,
    {
        ColumnDetails {
            name: self.name.clone(),
            data_type: self.data_type.clone(),
            is_nullable: self.is_nullable,
        }
    }
}

/// One sampled row: the display text of each cell, in column order.
#[derive(Debug, PartialEq, Eq)]
pub struct RowDetails {
    pub values: Vec<String>,
}

impl View for RowDetails {
    type V = Seq<Seq<char>>;

    open spec fn view(&self) -> Seq<Seq<char>> {
        self.values.deep_view()
    }
}

impl DeepView for RowDetails {
    type V = Seq<Seq<char>>;

    open spec fn deep_view(&self) -> Seq<Seq<char>> {
        self@
    }
}

impl Clone for RowDetails {
    fn clone(&self) -> (copy: RowDetails)
        ensures
            copy@ == self@,
    {
        RowDetails { values: self.values.clone() }
    }
}

/// What is known of one table: its columns and row count, and a sample of its
/// rows once one has been asked for.
#[derive(Debug, PartialEq, Eq)]
pub struct TableDetails {
    pub name: String,
    pub columns: Vec<ColumnDetails>,
    pub row_count: i64,
    pub rows: Option<Vec<RowDetails>>,
}

/// Model of a [`TableDetails`].
pub struct TableModel {
    pub name: Seq<char>,
    pub columns: Seq<ColumnModel>,
    pub row_count: int,
    pub rows: Option<Seq<Seq<Seq<char>>>>,
}

/// Every row of `rows` has exactly `width` values.
pub open spec fn rows_have_width(rows: Seq<Seq<Seq<char>>>, width: nat) -> bool {
    forall|r: int| 0 <= r < rows.len() ==> (#[trigger] rows[r]).len() == width
}

impl TableModel {
    /// Every sampled row has exactly one value per column.
    pub open spec fn rows_aligned(self) -> bool {
        self.rows matches Some(rows) ==> rows_have_width(rows, self.columns.len())
    }
}

/// Whether every row of `rows` has exactly `width` values.
pub fn rows_fit(rows: &Vec<RowDetails>, width: usize) -> (fit: bool)
    ensures
        fit == rows_have_width(rows.deep_view(), width as nat),
{
    let mut r: usize = 0;
    while r < rows.len()
        invariant
            r <= rows.len(),
            forall|j: int| 0 <= j < r ==> (#[trigger] rows.deep_view()[j]).len() == width,
        decreases rows.len() - r,
    {
        if rows[r].values.len() != width {
            assert(rows.deep_view()[r as int].len() != width);
            return false;
        }
        r += 1;
    }
    true
}

impl View for TableDetails {
    type V = TableModel;

    open spec fn view(&self) -> TableModel {
        TableModel {
            name: self.name@,
            columns: self.columns.deep_view(),
            row_count: self.row_count as int,
            rows: self.rows.deep_view(),
        }
    }
}

impl DeepView for TableDetails {
    type V = TableModel;

    open spec fn deep_view(&self) -> TableModel {
        self@
    }
}

impl Clone for TableDetails {
    fn clone(&self) -> (copy: TableDetails)
        ensures
            copy@ == self@,
    {
        let columns = self.columns.clone();
        let rows = match &self.rows {
            Some(rows) => Some(rows.clone()),
            None => None,
        };
        TableDetails { name: self.name.clone(), columns, row_count: self.row_count, rows }
    }
}

impl TableDetails {
    /// A descriptor with its metadata and no sample yet.
    pub fn new(name: String, columns: Vec<ColumnDetails>, row_count: i64) -> (details: TableDetails)
        ensures
            details@ == (TableModel {
                name: name@,
                columns: columns.deep_view(),
                row_count: row_count as int,
                rows: None,
            }),
            details@.rows_aligned(),
    {
        TableDetails { name, columns, row_count, rows: None }
    }

    /// Whether every sampled row has exactly one value per column.
    pub fn is_aligned(&self) -> (aligned: bool)
        ensures
            aligned == self@.rows_aligned(),
    {
        match &self.rows {
            Some(rows) => rows_fit(rows, self.columns.len()),
            None => true,
        }
    }
}

/// Everything the viewer shows. `P` is the handle of the connection pool,
/// which this crate stores and never looks into.
///
/// There are four resources: the connection, the list of tables, the
/// selected table and its sample. Each has its own error, which stays until
/// that resource succeeds. The connection and the list of tables, which is
/// loaded as soon as the connection stands, share the flag `loading_tables`.
pub struct DatabaseViewer<P> {
    pub pool: Option<P>,
    pub tables: Vec<String>,
    pub table_details: Option<TableDetails>,
    pub connection_error: Option<String>,
    pub tables_error: Option<String>,
    pub details_error: Option<String>,
    pub top_rows_error: Option<String>,
    pub loading_tables: bool,
    pub loading_details: bool,
    pub loading_top_rows: bool,
}

/// Model of a [`DatabaseViewer`].
pub struct ViewerModel<P> {
    pub pool: Option<P>,
    pub tables: Seq<Seq<char>>,
    pub table_details: Option<TableModel>,
    pub connection_error: Option<Seq<char>>,
    pub tables_error: Option<Seq<char>>,
    pub details_error: Option<Seq<char>>,
    pub top_rows_error: Option<Seq<char>>,
    pub loading_tables: bool,
    pub loading_details: bool,
    pub loading_top_rows: bool,
}

impl<P> ViewerModel<P> {
    /// The state before anything has happened: no pool, no data, no error,
    /// nothing in flight.
    pub open spec fn initial() -> ViewerModel<P> {
        ViewerModel {
            pool: None,
            tables: Seq::empty(),
            table_details: None,
            connection_error: None,
            tables_error: None,
            details_error: None,
            top_rows_error: None,
            loading_tables: false,
            loading_details: false,
            loading_top_rows: false,
        }
    }

    /// Some operation is in flight.
    pub open spec fn busy(self) -> bool {
        self.loading_tables || self.loading_details || self.loading_top_rows
    }

    /// Every row of the sample on show has one value per column.
    pub open spec fn rows_aligned(self) -> bool {
        self.table_details matches Some(details) ==> details.rows_aligned()
    }
}

impl<P> View for DatabaseViewer<P> {
    type V = ViewerModel<P>;

    open spec fn view(&self) -> ViewerModel<P> {
        ViewerModel {
            pool: self.pool,
            tables: self.tables.deep_view(),
            table_details: self.table_details.deep_view(),
            connection_error: self.connection_error.deep_view(),
            tables_error: self.tables_error.deep_view(),
            details_error: self.details_error.deep_view(),
            top_rows_error: self.top_rows_error.deep_view(),
            loading_tables: self.loading_tables,
            loading_details: self.loading_details,
            loading_top_rows: self.loading_top_rows,
        }
    }
}

impl<P> Default for DatabaseViewer<P> {
    fn default() -> (viewer: DatabaseViewer<P>)
        ensures
            viewer@ == ViewerModel::<P>::initial(),
    {
        let viewer = DatabaseViewer {
            pool: None,
            tables: Vec::new(),
            table_details: None,
            connection_error: None,
            tables_error: None,
            details_error: None,
            top_rows_error: None,
            loading_tables: false,
            loading_details: false,
            loading_top_rows: false,
        };
        assert(viewer.tables.deep_view() =~= Seq::<Seq<char>>::empty());
        viewer
    }
}

/// What can happen to the viewer: a request from the user, or the outcome of
/// an operation that was started earlier.
#[derive(Debug, PartialEq, Eq)]
pub enum Message<P> {
    InitDatabase,
    DatabaseInitialized(Result<P, String>),
    TablesLoaded(Result<Vec<String>, String>),
    ClickTable(String),
    TableDetailsLoaded(Result<TableDetails, String>),
    FetchTopRows(String),
    TopRowsLoaded(Result<Vec<RowDetails>, String>),
}

/// Model of a [`Message`].
pub enum MessageModel<P> {
    InitDatabase,
    DatabaseInitialized(Result<P, Seq<char>>),
    TablesLoaded(Result<Seq<Seq<char>>, Seq<char>>),
    ClickTable(Seq<char>),
    TableDetailsLoaded(Result<TableModel, Seq<char>>),
    FetchTopRows(Seq<char>),
    TopRowsLoaded(Result<Seq<Seq<Seq<char>>>, Seq<char>>),
}

impl<P: Clone> Clone for Message<P> {
    /// The copy is the same message, but that a pool in it is a clone of
    /// the pool in this one.
    fn clone(&self) -> (copy: Message<P>)
        ensures
            match (self@, copy@) {
                (
                    MessageModel::DatabaseInitialized(Ok(pool)),
                    MessageModel::DatabaseInitialized(Ok(copied)),
                ) => cloned::<P>(pool, copied),
                (given, same) => same == given,
            },
    {
        match self {
            Message::InitDatabase => Message::InitDatabase,
            Message::DatabaseInitialized(Ok(pool)) => Message::DatabaseInitialized(Ok(pool.clone())),
            Message::DatabaseInitialized(Err(e)) => Message::DatabaseInitialized(Err(e.clone())),
            Message::TablesLoaded(Ok(tables)) => Message::TablesLoaded(Ok(tables.clone())),
            Message::TablesLoaded(Err(e)) => Message::TablesLoaded(Err(e.clone())),
            Message::ClickTable(name) => Message::ClickTable(name.clone()),
            Message::TableDetailsLoaded(Ok(details)) => Message::TableDetailsLoaded(
                Ok(details.clone()),
            ),
            Message::TableDetailsLoaded(Err(e)) => Message::TableDetailsLoaded(Err(e.clone())),
            Message::FetchTopRows(name) => Message::FetchTopRows(name.clone()),
            Message::TopRowsLoaded(Ok(rows)) => Message::TopRowsLoaded(Ok(rows.clone())),
            Message::TopRowsLoaded(Err(e)) => Message::TopRowsLoaded(Err(e.clone())),
        }
    }
}

impl<P> View for Message<P> {
    type V = MessageModel<P>;

    open spec fn view(&self) -> MessageModel<P> {
        match *self {
            Message::InitDatabase => MessageModel::InitDatabase,
            Message::DatabaseInitialized(Ok(pool)) => MessageModel::DatabaseInitialized(Ok(pool)),
            Message::DatabaseInitialized(Err(e)) => MessageModel::DatabaseInitialized(Err(e@)),
            Message::TablesLoaded(Ok(tables)) => MessageModel::TablesLoaded(Ok(tables.deep_view())),
            Message::TablesLoaded(Err(e)) => MessageModel::TablesLoaded(Err(e@)),
            Message::ClickTable(name) => MessageModel::ClickTable(name@),
            Message::TableDetailsLoaded(Ok(details)) => MessageModel::TableDetailsLoaded(
                Ok(details@),
            ),
            Message::TableDetailsLoaded(Err(e)) => MessageModel::TableDetailsLoaded(Err(e@)),
            Message::FetchTopRows(name) => MessageModel::FetchTopRows(name@),
            Message::TopRowsLoaded(Ok(rows)) => MessageModel::TopRowsLoaded(Ok(rows.deep_view())),
            Message::TopRowsLoaded(Err(e)) => MessageModel::TopRowsLoaded(Err(e@)),
        }
    }
}

} // verus!
