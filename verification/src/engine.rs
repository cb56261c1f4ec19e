//! The boundary to libsql and to the executor that drives it.
//!
//! Everything here is believed, not proved: each function makes one call into
//! libsql (through `futures::executor::block_on` where the call is
//! asynchronous) and converts what goes in and what comes out.
//!
//! What no contract here can leave out:
//! - `block_on` panics when it is called from inside another `futures`
//!   executor, so none of these calls may be made from one.
//! - When an engine transaction is dropped while it is still open, libsql
//!   rolls it back and unwraps the outcome; a rollback that the engine fails
//!   at that moment panics.
//! - The first database opened in a process makes libsql assert that the
//!   engine accepts its threading configuration; a process that has set the
//!   engine up otherwise beforehand fails that assertion.
//!
//! What is not here, because libsql unwraps a UTF-8 conversion on the way and
//! the bytes in question sit inside the engine where no contract reaches:
//! reading a value or a column name out of a record or a result set, and
//! running a batch. Those calls are the caller's to make; the library takes
//! what they gave as plain values.
//!
//! Sessions on a remote database are left out by `requires`: there libsql
//! unwraps a UTF-8 conversion of whatever the peer sent back as an error,
//! and beginning a transaction inside one stops the program. Statements run
//! only on sessions that `connect` opened on a local database.

use crate::value::ValueType;
use futures::executor::block_on;
use libsql::Connection as EngineConnection;
use libsql::Database as EngineDatabase;
use libsql::Error as EngineError;
use libsql::Row as EngineRow;
use libsql::Rows as EngineRows;
use libsql::Transaction as EngineTransaction;
use vstd::prelude::*;
use vstd::string::*;

verus! {

/// libsql's error type, carried through unopened.
#[verifier::external_type_specification]
#[verifier::external_body]
pub struct ExEngineError(EngineError);

/// libsql's database handle, carried through unopened.
#[verifier::external_type_specification]
#[verifier::external_body]
pub struct ExEngineDatabase(EngineDatabase);

/// libsql's connection, carried through unopened.
#[verifier::external_type_specification]
#[verifier::external_body]
pub struct ExEngineConnection(EngineConnection);

/// libsql's transaction, carried through unopened.
#[verifier::external_type_specification]
#[verifier::external_body]
pub struct ExEngineTransaction(EngineTransaction);

/// libsql's streaming result set, carried through unopened.
#[verifier::external_type_specification]
#[verifier::external_body]
pub struct ExEngineRows(EngineRows);

/// libsql's record, carried through unopened.
#[verifier::external_type_specification]
#[verifier::external_body]
pub struct ExEngineRow(EngineRow);

/// The text that the `Display` impl of `libsql::Error` writes for an error.
pub uninterp spec fn error_text(e: EngineError) -> Seq<char>;

/// The number of columns that `libsql::Rows::column_count` reports for a
/// result set.
pub uninterp spec fn cursor_width(rows: EngineRows) -> int;

/// The kind that `libsql::Rows::column_type` reports for a column of a
/// result set as it stands; none where it reports an error instead.
pub uninterp spec fn cursor_kind(rows: EngineRows, idx: int) -> Option<ValueType>;

/// The bytes of the path that a database handle holds, for a handle that
/// `libsql::Builder::new_local` built; none for any other handle.
pub uninterp spec fn database_path(db: EngineDatabase) -> Option<Seq<u8>>;

/// Whether a session runs on a local database: it is one that
/// `libsql::Database::connect` opened on a handle that the local builder
/// built, or the session of a transaction begun on such a one.
pub uninterp spec fn is_local(conn: EngineConnection) -> bool;

/// The session that a transaction runs on: what the `Deref` of
/// `libsql::Transaction` hands out.
pub uninterp spec fn session_of(tx: EngineTransaction) -> EngineConnection;

/// `ToString::to_string` on a `libsql::Error`: the error's display text.
#[verifier::external_body]
pub(crate) fn error_message(e: &EngineError) -> (text: String)
    ensures
        text@ == error_text(*e),
{
    e.to_string()
}

/// `libsql::Builder::new_local(path).build()`, driven to completion.
/// Whether it succeeds is the engine's to say. The builder compares the path
/// with `:memory:` as paths, not as text: a handle that comes back holds
/// either the path as it was given or, where the builder took it for the
/// in-memory database, `:memory:` itself.
#[verifier::external_body]
pub(crate) fn open_local(path: &str) -> (r: Result<EngineDatabase, EngineError>)
    ensures
        r is Ok ==> database_path(r->Ok_0) == Some(path.spec_bytes()) || database_path(r->Ok_0)
            == Some(":memory:".spec_bytes()),
{
    block_on(libsql::Builder::new_local(path).build())
}

/// `libsql::Database::connect` on a handle that the local builder built. The
/// path it holds must have no zero byte: libsql unwraps its conversion to a
/// C string. Whether a session opens is the engine's to say; one that does
/// runs on the local database.
#[verifier::external_body]
pub(crate) fn connect(db: &EngineDatabase) -> (r: Result<EngineConnection, EngineError>)
    requires
        database_path(*db) is Some,
        !database_path(*db)->Some_0.contains(0u8),
    ensures
        r is Ok ==> is_local(r->Ok_0),
{
    db.connect()
}

/// `libsql::Connection::execute` on a local session with positional text
/// parameters, driven to completion: the number of rows changed, or the
/// engine's error.
#[verifier::external_body]
pub(crate) fn execute(conn: &EngineConnection, sql: &str, params: Vec<String>) -> (r: Result<
    u64,
    EngineError,
>)
    requires
        is_local(*conn),
{
    block_on(conn.execute(sql, params))
}

/// `libsql::Connection::query` on a local session with positional text
/// parameters, driven to completion.
#[verifier::external_body]
pub(crate) fn query(conn: &EngineConnection, sql: &str, params: Vec<String>) -> (r: Result<
    EngineRows,
    EngineError,
>)
    requires
        is_local(*conn),
{
    block_on(conn.query(sql, params))
}

/// `libsql::Connection::transaction` on a local session, driven to
/// completion: begins a deferred transaction on the session. The
/// transaction that comes back runs on a local session too.
#[verifier::external_body]
pub(crate) fn begin(conn: &EngineConnection) -> (r: Result<EngineTransaction, EngineError>)
    requires
        is_local(*conn),
    ensures
        r is Ok ==> is_local(session_of(r->Ok_0)),
{
    block_on(conn.transaction())
}

/// `libsql::Connection::is_autocommit`: whether the session is outside any
/// transaction just now.
#[verifier::external_body]
pub(crate) fn is_autocommit(conn: &EngineConnection) -> (flag: bool)
{
    conn.is_autocommit()
}

/// `libsql::Connection::changes`: the rows changed by the last statement.
#[verifier::external_body]
pub(crate) fn changes(conn: &EngineConnection) -> (n: u64)
{
    conn.changes()
}

/// `libsql::Connection::last_insert_rowid`.
#[verifier::external_body]
pub(crate) fn last_insert_rowid(conn: &EngineConnection) -> (id: i64)
{
    conn.last_insert_rowid()
}

/// The `Deref` of `libsql::Transaction`: the session the transaction runs on.
#[verifier::external_body]
pub(crate) fn session(tx: &EngineTransaction) -> (conn: &EngineConnection)
    ensures
        *conn == session_of(*tx),
{
    tx
}

/// `libsql::Transaction::commit` on a transaction of a local session, driven
/// to completion. The transaction is consumed whatever the outcome.
#[verifier::external_body]
pub(crate) fn commit(tx: EngineTransaction) -> (r: Result<(), EngineError>)
    requires
        is_local(session_of(tx)),
{
    block_on(tx.commit())
}

/// `libsql::Transaction::rollback` on a transaction of a local session,
/// driven to completion. The transaction is consumed whatever the outcome.
#[verifier::external_body]
pub(crate) fn rollback(tx: EngineTransaction) -> (r: Result<(), EngineError>)
    requires
        is_local(session_of(tx)),
{
    block_on(tx.rollback())
}

/// `libsql::Rows::next`, driven to completion: the next record, `None` at
/// the end of the results, or the engine's error.
#[verifier::external_body]
pub(crate) fn fetch(rows: &mut EngineRows) -> (r: Result<Option<EngineRow>, EngineError>)
{
    block_on(rows.next())
}

/// `libsql::Rows::column_count`: the count is read from the column
/// metadata of the statement or reply behind the result set.
#[verifier::external_body]
pub(crate) fn cursor_column_count(rows: &EngineRows) -> (n: i32)
    ensures
        n == cursor_width(*rows),
{
    rows.column_count()
}

/// `libsql::Rows::column_type`, with the kind rewritten in this library's
/// enum: the kind of the column in the result set as it stands, or the
/// engine's error.
#[verifier::external_body]
pub(crate) fn cursor_column_type(rows: &EngineRows, idx: i32) -> (r: Result<
    ValueType,
    EngineError,
>)
    ensures
        match cursor_kind(*rows, idx as int) {
            Some(t) => r == Ok::<ValueType, EngineError>(t),
            None => r is Err,
        },
{
    match rows.column_type(idx)? {
        libsql::ValueType::Integer => Ok(ValueType::Integer),
        libsql::ValueType::Real => Ok(ValueType::Real),
        libsql::ValueType::Text => Ok(ValueType::Text),
        libsql::ValueType::Blob => Ok(ValueType::Blob),
        libsql::ValueType::Null => Ok(ValueType::Null),
    }
}

} // verus!
