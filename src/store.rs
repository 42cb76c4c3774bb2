//! The relational store's side of the repository: the statements it runs,
//! with values passed as parameters and never spliced into the text, and how
//! their results become outcomes.
use vstd::prelude::*;
use vstd::string::*;
use crate::error::{ErrorKind, RepoError};

verus! {

/// The table that holds the movie records.
pub const DB_NAME: &'static str = "movies";

/// Creates the movie table only where it does not exist yet, so that running
/// it again alters nothing.
pub open spec fn create_table_sql(table: Seq<char>) -> Seq<char> {
    "CREATE TABLE IF NOT EXISTS "@ + table
        + " (index TEXT PRIMARY KEY, title TEXT NOT NULL, year INT NOT NULL, genre TEXT NOT NULL)"@
}

/// Lists every row.
pub open spec fn select_all_sql(table: Seq<char>) -> Seq<char> {
    "SELECT index, title, year, genre FROM "@ + table
}

/// Adds a row: `$1` identifier, `$2` title, `$3` year, `$4` genre.
pub open spec fn insert_sql(table: Seq<char>) -> Seq<char> {
    "INSERT INTO "@ + table + " (index, title, year, genre) VALUES ($1, $2, $3, $4)"@
}

/// Overwrites a row: `$1` title, `$2` year, `$3` genre, `$4` identifier.
pub open spec fn update_sql(table: Seq<char>) -> Seq<char> {
    "UPDATE "@ + table + " SET title = $1, year = $2, genre = $3 WHERE index = $4"@
}

/// Removes a row: `$1` identifier.
pub open spec fn delete_sql(table: Seq<char>) -> Seq<char> {
    "DELETE FROM "@ + table + " WHERE index = $1"@
}

/// The statement that creates the movie table `table` where it is missing.
pub fn create_table_statement(table: &str) -> (r: String)
    ensures
        r@ == create_table_sql(table@),
{
    let mut s = String::from_str("CREATE TABLE IF NOT EXISTS ");
    s.append(table);
    s.append(
        " (index TEXT PRIMARY KEY, title TEXT NOT NULL, year INT NOT NULL, genre TEXT NOT NULL)",
    );
    s
}

/// The statement that lists every row of `table`.
pub fn select_all_statement(table: &str) -> (r: String)
    ensures
        r@ == select_all_sql(table@),
{
    String::from_str("SELECT index, title, year, genre FROM ").concat(table)
}

/// The statement that adds a row to `table`.
pub fn insert_statement(table: &str) -> (r: String)
    ensures
        r@ == insert_sql(table@),
{
    let mut s = String::from_str("INSERT INTO ");
    s.append(table);
    s.append(" (index, title, year, genre) VALUES ($1, $2, $3, $4)");
    s
}

/// The statement that overwrites a row of `table`.
pub fn update_statement(table: &str) -> (r: String)
    ensures
        r@ == update_sql(table@),
{
    let mut s = String::from_str("UPDATE ");
    s.append(table);
    s.append(" SET title = $1, year = $2, genre = $3 WHERE index = $4");
    s
}

/// The statement that removes a row of `table`.
pub fn delete_statement(table: &str) -> (r: String)
    ensures
        r@ == delete_sql(table@),
{
    let mut s = String::from_str("DELETE FROM ");
    s.append(table);
    s.append(" WHERE index = $1");
    s
}

/// The outcome of an update or a delete keyed on `index`, from the number of
/// rows it affected: none affected means that no record has the identifier,
/// which is `NotFound` and never a silent success.
pub fn keyed_write_outcome(affected: u64, index: &String) -> (r: Result<(), RepoError>)
    ensures
        r is Ok <==> affected > 0,
        r matches Err(e) ==> e.kind == ErrorKind::NotFound,
{
    if affected == 0 {
        let detail = String::from_str("no movie with identifier ").concat(index.as_str());
        Err(RepoError::new(ErrorKind::NotFound, detail))
    } else {
        Ok(())
    }
}

/// The error for a statement that failed: a closed connection is a
/// connection failure, anything else a query failure; `cause` is the store's
/// own description, kept for diagnostics.
pub fn statement_error(connection_closed: bool, cause: String) -> (r: RepoError)
    ensures
        r.kind == (if connection_closed {
            ErrorKind::Connection
        } else {
            ErrorKind::Query
        }),
        r.detail@ == cause@,
{
    if connection_closed {
        RepoError::new(ErrorKind::Connection, cause)
    } else {
        RepoError::new(ErrorKind::Query, cause)
    }
}

/// The steps of bringing the store up, before the repository serves.
#[derive(Debug, Clone, Copy, PartialEq, Eq, Structural)]
pub enum StartupStep {
    /// Opening the connection.
    Connect,
    /// The first round trip, which shows that the store answers.
    Ping,
    /// Creating the movie table where it is missing.
    CreateTable,
}

/// The error for a step of startup that failed: the store unreachable is a
/// connection failure, the table not created a schema failure; either is
/// fatal. `cause` is the store's own description.
pub fn startup_error(step: StartupStep, cause: String) -> (r: RepoError)
    ensures
        r.kind == (if step == StartupStep::CreateTable {
            ErrorKind::SchemaInit
        } else {
            ErrorKind::Connection
        }),
        r.detail@ == cause@,
{
    match step {
        StartupStep::CreateTable => RepoError::new(ErrorKind::SchemaInit, cause),
        _ => RepoError::new(ErrorKind::Connection, cause),
    }
}

} // verus!
