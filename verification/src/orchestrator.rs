//! The viewer as a state machine: each message moves the state and names the
//! one operation, if any, that the caller has to start.
//!
//! The caller runs the operations (connecting, querying) and feeds their
//! outcomes back as messages. An operation is never cancelled: when two of a
//! kind are in flight, each outcome is applied as it arrives, so the one that
//! completes last decides what is shown.
//!
//! Each of the four resources, the connection, the list of tables, the
//! selected table and its sample, keeps its own error: a failure sets it, a
//! success of the same resource clears it, and nothing else touches it. Rows
//! are only ever shown under a table with as many columns as they have
//! values: a sample of another width, such as one that arrives late for a
//! table no longer selected, is turned away with [`MISALIGNED_SAMPLE`].

use crate::state::{
    rows_fit, rows_have_width, DatabaseViewer, Message, MessageModel, TableModel, ViewerModel,
};
use vstd::prelude::*;

verus! {

/// The error for rows that are not as wide as the table they are meant for.
pub const MISALIGNED_SAMPLE: &'static str = "sample does not match the table's columns";

/// The operation to start after a transition.
#[derive(Debug, PartialEq, Eq)]
pub enum Command {
    /// Nothing to do.
    Idle,
    /// Open the connection pool; answer with `Message::DatabaseInitialized`.
    Connect,
    /// List the tables; answer with `Message::TablesLoaded`.
    FetchTables,
    /// Describe the named table; answer with `Message::TableDetailsLoaded`.
    FetchTableDetails(String),
    /// Sample the named table's rows; answer with `Message::TopRowsLoaded`.
    FetchTopRows(String),
}

/// Model of a [`Command`].
pub enum CommandModel {
    Idle,
    Connect,
    FetchTables,
    FetchTableDetails(Seq<char>),
    FetchTopRows(Seq<char>),
}

impl View for Command {
    type V = CommandModel;

    open spec fn view(&self) -> CommandModel {
        match *self {
            Command::Idle => CommandModel::Idle,
            Command::Connect => CommandModel::Connect,
            Command::FetchTables => CommandModel::FetchTables,
            Command::FetchTableDetails(name) => CommandModel::FetchTableDetails(name@),
            Command::FetchTopRows(name) => CommandModel::FetchTopRows(name@),
        }
    }
}

impl Clone for Command {
    fn clone(&self) -> (copy: Command)
        ensures
            copy@ == self@,
    {
        match self {
            Command::Idle => Command::Idle,
            Command::Connect => Command::Connect,
            Command::FetchTables => Command::FetchTables,
            Command::FetchTableDetails(name) => Command::FetchTableDetails(name.clone()),
            Command::FetchTopRows(name) => Command::FetchTopRows(name.clone()),
        }
    }
}

impl CommandModel {
    /// The command runs a query, so it needs the pool.
    pub open spec fn needs_pool(self) -> bool {
        self is FetchTables || self is FetchTableDetails || self is FetchTopRows
    }
}

/// The state after `m` has been applied to `s`.
///
/// A request raises the loading flag of its resource; an outcome lowers it. A
/// success replaces the resource's data and clears the resource's error; a
/// failure records the error and leaves all data as it was. Rows that do not
/// fit their table count as a failure. Requests that need the pool are
/// ignored while there is none.
pub open spec fn next_state<P>(s: ViewerModel<P>, m: MessageModel<P>) -> ViewerModel<P> {
    match m {
        MessageModel::InitDatabase => ViewerModel { loading_tables: true, ..s },
        MessageModel::DatabaseInitialized(Ok(pool)) => ViewerModel {
            pool: Some(pool),
            connection_error: None,
            loading_tables: true,
            ..s
        },
        MessageModel::DatabaseInitialized(Err(e)) => ViewerModel {
            connection_error: Some(e),
            loading_tables: false,
            ..s
        },
        MessageModel::TablesLoaded(Ok(tables)) => ViewerModel {
            tables,
            tables_error: None,
            loading_tables: false,
            ..s
        },
        MessageModel::TablesLoaded(Err(e)) => ViewerModel {
            tables_error: Some(e),
            loading_tables: false,
            ..s
        },
        MessageModel::ClickTable(_) => ViewerModel {
            loading_details: s.loading_details || s.pool is Some,
            ..s
        },
        MessageModel::TableDetailsLoaded(Ok(details)) => if details.rows_aligned() {
            ViewerModel {
                table_details: Some(details),
                details_error: None,
                loading_details: false,
                ..s
            }
        } else {
            ViewerModel {
                details_error: Some(MISALIGNED_SAMPLE@),
                loading_details: false,
                ..s
            }
        },
        MessageModel::TableDetailsLoaded(Err(e)) => ViewerModel {
            details_error: Some(e),
            loading_details: false,
            ..s
        },
        MessageModel::FetchTopRows(_) => ViewerModel {
            loading_top_rows: s.loading_top_rows || s.pool is Some,
            ..s
        },
        MessageModel::TopRowsLoaded(Ok(rows)) => match s.table_details {
            Some(details) => if rows_have_width(rows, details.columns.len()) {
                ViewerModel {
                    table_details: Some(TableModel { rows: Some(rows), ..details }),
                    top_rows_error: None,
                    loading_top_rows: false,
                    ..s
                }
            } else {
                ViewerModel {
                    top_rows_error: Some(MISALIGNED_SAMPLE@),
                    loading_top_rows: false,
                    ..s
                }
            },
            None => ViewerModel { top_rows_error: None, loading_top_rows: false, ..s },
        },
        MessageModel::TopRowsLoaded(Err(e)) => ViewerModel {
            top_rows_error: Some(e),
            loading_top_rows: false,
            ..s
        },
    }
}

/// The operation to start when `m` arrives in state `s`.
pub open spec fn next_command<P>(s: ViewerModel<P>, m: MessageModel<P>) -> CommandModel {
    match m {
        MessageModel::InitDatabase => CommandModel::Connect,
        MessageModel::DatabaseInitialized(Ok(_)) => CommandModel::FetchTables,
        MessageModel::ClickTable(name) => if s.pool is Some {
            CommandModel::FetchTableDetails(name)
        } else {
            CommandModel::Idle
        },
        MessageModel::FetchTopRows(name) => if s.pool is Some {
            CommandModel::FetchTopRows(name)
        } else {
            CommandModel::Idle
        },
        _ => CommandModel::Idle,
    }
}

/// The viewer at start-up, and the first operation: connecting. The flag of
/// the connection is up from the start, since the connection is under way.
pub fn boot<P>() -> (start: (DatabaseViewer<P>, Command))
    ensures
        start.0@ == (ViewerModel { loading_tables: true, ..ViewerModel::<P>::initial() }),
        start.0@ == next_state(ViewerModel::<P>::initial(), MessageModel::InitDatabase),
        start.1@ == CommandModel::Connect,
{
    let mut viewer = DatabaseViewer::default();
    viewer.loading_tables = true;
    (viewer, Command::Connect)
}

/// Applies `message` to `state` and returns the operation to start.
///
/// Whatever the message, rows that were as wide as their table before are
/// so afterwards.
pub fn update<P>(state: &mut DatabaseViewer<P>, message: Message<P>) -> (command: Command)
    ensures
        final(state)@ == next_state(old(state)@, message@),
        command@ == next_command(old(state)@, message@),
        old(state)@.rows_aligned() ==> final(state)@.rows_aligned(),
{
    match message {
        Message::InitDatabase => {
            state.loading_tables = true;
            Command::Connect
        },
        Message::DatabaseInitialized(result) => {
            match result {
                Ok(pool) => {
                    state.pool = Some(pool);
                    state.connection_error = None;
                    state.loading_tables = true;
                    Command::FetchTables
                },
                Err(e) => {
                    state.connection_error = Some(e);
                    state.loading_tables = false;
                    Command::Idle
                },
            }
        },
        Message::TablesLoaded(result) => {
            state.loading_tables = false;
            match result {
                Ok(tables) => {
                    state.tables = tables;
                    state.tables_error = None;
                },
                Err(e) => {
                    state.tables_error = Some(e);
                },
            }
            Command::Idle
        },
        Message::ClickTable(table_name) => {
            if state.pool.is_some() {
                state.loading_details = true;
                Command::FetchTableDetails(table_name)
            } else {
                Command::Idle
            }
        },
        Message::TableDetailsLoaded(result) => {
            state.loading_details = false;
            match result {
                Ok(details) => {
                    if details.is_aligned() {
                        state.table_details = Some(details);
                        state.details_error = None;
                    } else {
                        state.details_error = Some(String::from_str(MISALIGNED_SAMPLE));
                    }
                },
                Err(e) => {
                    state.details_error = Some(e);
                },
            }
            Command::Idle
        },
        Message::FetchTopRows(table_name) => {
            if state.pool.is_some() {
                state.loading_top_rows = true;
                Command::FetchTopRows(table_name)
            } else {
                Command::Idle
            }
        },
        Message::TopRowsLoaded(result) => {
            state.loading_top_rows = false;
            match result {
                Ok(rows) => {
                    let fit = match &state.table_details {
                        Some(details) => rows_fit(&rows, details.columns.len()),
                        None => true,
                    };
                    if fit {
                        if let Some(details) = &mut state.table_details {
                            details.rows = Some(rows);
                        }
                        state.top_rows_error = None;
                    } else {
                        state.top_rows_error = Some(String::from_str(MISALIGNED_SAMPLE));
                    }
                },
                Err(e) => {
                    state.top_rows_error = Some(e);
                },
            }
            Command::Idle
        },
    }
}

impl<P> MessageModel<P> {
    /// The message reports that an operation failed, with this error.
    pub open spec fn failure(self) -> Option<Seq<char>> {
        match self {
            MessageModel::DatabaseInitialized(Err(e)) => Some(e),
            MessageModel::TablesLoaded(Err(e)) => Some(e),
            MessageModel::TableDetailsLoaded(Err(e)) => Some(e),
            MessageModel::TopRowsLoaded(Err(e)) => Some(e),
            _ => None,
        }
    }

    /// The message reports that an operation succeeded.
    pub open spec fn success(self) -> bool {
        match self {
            MessageModel::DatabaseInitialized(Ok(_)) => true,
            MessageModel::TablesLoaded(Ok(_)) => true,
            MessageModel::TableDetailsLoaded(Ok(_)) => true,
            MessageModel::TopRowsLoaded(Ok(_)) => true,
            _ => false,
        }
    }

    /// The message brings rows that are not as wide as the table that would
    /// show them in state `s`.
    pub open spec fn misaligned(self, s: ViewerModel<P>) -> bool {
        match self {
            MessageModel::TableDetailsLoaded(Ok(details)) => !details.rows_aligned(),
            MessageModel::TopRowsLoaded(Ok(rows)) => s.table_details matches Some(details)
                && !rows_have_width(rows, details.columns.len()),
            _ => false,
        }
    }
}

impl<P> ViewerModel<P> {
    /// The error of the resource that `m` is about; none for a message that
    /// only asks for an operation.
    pub open spec fn error_of(self, m: MessageModel<P>) -> Option<Seq<char>> {
        match m {
            MessageModel::DatabaseInitialized(_) => self.connection_error,
            MessageModel::TablesLoaded(_) => self.tables_error,
            MessageModel::TableDetailsLoaded(_) => self.details_error,
            MessageModel::TopRowsLoaded(_) => self.top_rows_error,
            _ => None,
        }
    }
}

/// A failure is recorded as the error of its resource and changes no data:
/// the pool, the table list, the selected table and its sample stay as they
/// were. Nothing is started in answer to it: trying again is left to the user.
pub proof fn lemma_failure_keeps_data<P>(s: ViewerModel<P>, m: MessageModel<P>)
    requires
        m.failure() is Some,
    ensures
        next_state(s, m).error_of(m) == m.failure(),
        next_state(s, m).pool == s.pool,
        next_state(s, m).tables == s.tables,
        next_state(s, m).table_details == s.table_details,
        next_command(s, m) == CommandModel::Idle,
{
}

/// Rows that do not fit their table are turned away like a failure: the
/// error of their resource says so, and no data changes.
pub proof fn lemma_misaligned_rows_are_turned_away<P>(s: ViewerModel<P>, m: MessageModel<P>)
    requires
        m.misaligned(s),
    ensures
        next_state(s, m).error_of(m) == Some(MISALIGNED_SAMPLE@),
        next_state(s, m).pool == s.pool,
        next_state(s, m).tables == s.tables,
        next_state(s, m).table_details == s.table_details,
        next_command(s, m) == CommandModel::Idle,
{
}

/// A success that is taken in clears the error of its resource.
pub proof fn lemma_success_clears_its_error<P>(s: ViewerModel<P>, m: MessageModel<P>)
    requires
        m.success(),
        !m.misaligned(s),
    ensures
        next_state(s, m).error_of(m) is None,
{
}

/// A message touches the error of its own resource only: the errors of the
/// other three stay as they were, whether it reports a success or a failure,
/// and a request touches none.
pub proof fn lemma_errors_are_scoped<P>(s: ViewerModel<P>, m: MessageModel<P>)
    ensures
        !(m is DatabaseInitialized) ==> next_state(s, m).connection_error == s.connection_error,
        !(m is TablesLoaded) ==> next_state(s, m).tables_error == s.tables_error,
        !(m is TableDetailsLoaded) ==> next_state(s, m).details_error == s.details_error,
        !(m is TopRowsLoaded) ==> next_state(s, m).top_rows_error == s.top_rows_error,
{
}

/// Starting an operation raises the loading flag of its resource, and any
/// outcome lowers it, but for a connection that succeeded: that one starts
/// the listing of the tables, whose flag stays up.
pub proof fn lemma_loading_follows_operations<P>(s: ViewerModel<P>, m: MessageModel<P>)
    ensures
        (next_command(s, m) is Connect || next_command(s, m) is FetchTables) ==> next_state(
            s,
            m,
        ).loading_tables,
        next_command(s, m) is FetchTableDetails ==> next_state(s, m).loading_details,
        next_command(s, m) is FetchTopRows ==> next_state(s, m).loading_top_rows,
        (m is TablesLoaded || (m is DatabaseInitialized && m.failure() is Some)) ==> !next_state(
            s,
            m,
        ).loading_tables,
        m is TableDetailsLoaded ==> !next_state(s, m).loading_details,
        m is TopRowsLoaded ==> !next_state(s, m).loading_top_rows,
{
}

/// A message moves the loading flag of its own resource only.
pub proof fn lemma_flags_are_independent<P>(s: ViewerModel<P>, m: MessageModel<P>)
    ensures
        !(m is InitDatabase || m is DatabaseInitialized || m is TablesLoaded) ==> next_state(
            s,
            m,
        ).loading_tables == s.loading_tables,
        !(m is ClickTable || m is TableDetailsLoaded) ==> next_state(s, m).loading_details
            == s.loading_details,
        !(m is FetchTopRows || m is TopRowsLoaded) ==> next_state(s, m).loading_top_rows
            == s.loading_top_rows,
{
}

/// No message takes the pool away.
pub proof fn lemma_pool_is_kept<P>(s: ViewerModel<P>, m: MessageModel<P>)
    requires
        s.pool is Some,
    ensures
        next_state(s, m).pool is Some,
{
}

/// A query is only ever started with a pool to run it on.
pub proof fn lemma_query_has_pool<P>(s: ViewerModel<P>, m: MessageModel<P>)
    requires
        next_command(s, m).needs_pool(),
    ensures
        next_state(s, m).pool is Some,
{
}

/// Whatever message arrives, every sampled row on show keeps one value per
/// column of its table.
pub proof fn lemma_rows_stay_aligned<P>(s: ViewerModel<P>, m: MessageModel<P>)
    requires
        s.rows_aligned(),
    ensures
        next_state(s, m).rows_aligned(),
{
}

/// The state after the messages `ms` have been applied to `s`, first to last.
pub open spec fn state_after<P>(s: ViewerModel<P>, ms: Seq<MessageModel<P>>) -> ViewerModel<P>
    decreases ms.len(),
{
    if ms.len() == 0 {
        s
    } else {
        next_state(state_after(s, ms.drop_last()), ms.last())
    }
}

/// From a start where the rows on show are as wide as their table, and so
/// from the initial state, they stay so through any run of messages.
pub proof fn lemma_rows_aligned_throughout<P>(s: ViewerModel<P>, ms: Seq<MessageModel<P>>)
    requires
        s.rows_aligned(),
    ensures
        state_after(s, ms).rows_aligned(),
        ViewerModel::<P>::initial().rows_aligned(),
    decreases ms.len(),
{
    if ms.len() > 0 {
        lemma_rows_aligned_throughout(s, ms.drop_last());
        lemma_rows_stay_aligned(state_after(s, ms.drop_last()), ms.last());
    }
}

} // verus!
