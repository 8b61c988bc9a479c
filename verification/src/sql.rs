//! The text of the queries. A table's name enters a query only after it has
//! passed the identifier grammar, and then inside double quotes, so that the
//! name is taken as written and cannot end the statement.

use crate::ident::{is_ident_part, is_valid_identifier, valid_identifier};
use crate::text::{decimal_digits, unsigned_text};
use vstd::prelude::*;

verus! {

/// Lists the tables of the `public` schema, one `table_name` per row.
pub const TABLES_QUERY: &'static str =
    "SELECT table_name FROM information_schema.tables WHERE table_schema = 'public'";

/// Lists `column_name`, `data_type` and `is_nullable` of the columns of the
/// table whose name is bound to `$1`.
pub const COLUMNS_QUERY: &'static str =
    "SELECT column_name, data_type, is_nullable FROM information_schema.columns WHERE table_name = $1";

/// The message of the error for a name that is not an identifier.
pub const INVALID_TABLE_NAME: &'static str = "invalid table name";

/// `name` between double quotes.
pub open spec fn quoted(name: Seq<char>) -> Seq<char> {
    "\""@ + name + "\""@
}

/// The text of the query that counts the rows of table `name`.
pub open spec fn count_query_text(name: Seq<char>) -> Seq<char> {
    "SELECT COUNT(*) FROM "@ + quoted(name)
}

/// The text of the query that reads at most `limit` rows of table `name`.
pub open spec fn top_rows_query_text(name: Seq<char>, limit: nat) -> Seq<char> {
    "SELECT * FROM "@ + quoted(name) + " LIMIT "@ + decimal_digits(limit)
}

/// Appends `name` between double quotes to `text`.
fn append_quoted(text: &mut String, name: &str)
    ensures
        final(text)@ == old(text)@ + quoted(name@),
{
    text.append("\"");
    text.append(name);
    text.append("\"");
}

/// The query that counts the rows of `table_name`, or the error
/// [`INVALID_TABLE_NAME`] when the name is not an identifier.
pub fn count_query(table_name: &str) -> (query: Result<String, String>)
    ensures
        match query {
            Ok(text) => valid_identifier(table_name@) && text@ == count_query_text(table_name@),
            Err(e) => !valid_identifier(table_name@) && e@ == INVALID_TABLE_NAME@,
        },
{
    if !is_valid_identifier(table_name) {
        return Err(String::from_str(INVALID_TABLE_NAME));
    }
    let mut text = String::from_str("SELECT COUNT(*) FROM ");
    append_quoted(&mut text, table_name);
    Ok(text)
}

/// The query that reads at most `limit` rows of `table_name`, or the error
/// [`INVALID_TABLE_NAME`] when the name is not an identifier.
pub fn top_rows_query(table_name: &str, limit: usize) -> (query: Result<String, String>)
    ensures
        match query {
            Ok(text) => valid_identifier(table_name@) && text@ == top_rows_query_text(
                table_name@,
                limit as nat,
            ),
            Err(e) => !valid_identifier(table_name@) && e@ == INVALID_TABLE_NAME@,
        },
{
    if !is_valid_identifier(table_name) {
        return Err(String::from_str(INVALID_TABLE_NAME));
    }
    let mut text = String::from_str("SELECT * FROM ");
    append_quoted(&mut text, table_name);
    text.append(" LIMIT ");
    let digits = unsigned_text(limit as u64);
    text.append(digits.as_str());
    Ok(text)
}

/// A quoted identifier is closed: it opens and ends with a double quote, and
/// between the two stand the characters of the name, none of them a quote.
pub proof fn lemma_quoted_identifier_is_closed(name: Seq<char>)
    requires
        valid_identifier(name),
    ensures
        quoted(name).len() == name.len() + 2,
        quoted(name).first() == '"',
        quoted(name).last() == '"',
        forall|i: int|
            0 < i < quoted(name).len() - 1 ==> {
                &&& (#[trigger] quoted(name)[i]) == name[i - 1]
                &&& is_ident_part(quoted(name)[i])
                &&& quoted(name)[i] != '"'
            },
{
    reveal_strlit("\"");
}

} // verus!
