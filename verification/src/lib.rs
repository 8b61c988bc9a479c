//! The logic of a browser for PostgreSQL databases: which queries to send,
//! how a table is described, how the cells of sampled rows become text, and
//! how the viewer's state follows the messages it receives.
//!
//! Nothing here talks to a database or draws a window. The caller connects,
//! runs the queries whose text this crate builds, and hands back what the
//! driver returned; every function is a plain computation with a proved
//! contract.
//!
//! - [`state`]: the descriptors, the viewer's state and its messages.
//! - [`orchestrator`]: the state machine that the messages drive.
//! - [`db`]: the connection URL, table descriptors and row samples.
//! - [`decode`]: from a raw cell to its display text.
//! - [`sql`], [`ident`]: the text of the queries and the grammar of the
//!   names that may enter it.
//! - [`labels`]: the wording of what is shown.
//! - [`text`]: substring search and decimal notation.

pub mod db;
pub mod decode;
pub mod ident;
pub mod labels;
pub mod orchestrator;
pub mod sql;
pub mod state;
pub mod text;
