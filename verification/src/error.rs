use crate::engine::error_message;
use crate::engine::error_text;
use libsql::Error as EngineError;
use vstd::prelude::*;

verus! {

/// Every way a call of this library can fail.
#[derive(Debug, PartialEq, Eq)]
pub enum Error {
    /// The database engine reported a failure; its message is kept verbatim.
    Engine(String),
    /// A database could not be opened or connected to: the engine's message
    /// word for word, or this library's own where it refused the path itself.
    Connection(String),
    /// A transaction was used after it had been committed or rolled back.
    AlreadyFinalized,
    /// A column index outside the columns of a row or cursor.
    IndexOutOfRange(i32),
    /// A parameter of a kind that cannot be bound to a statement.
    TypeMismatch,
    /// A second unit of work was asked for on a session that already has one open.
    ConcurrencyConflict,
    /// A cursor handle that reaches no cursor: its transaction has ended, or
    /// never opened a cursor of that number.
    StaleReference,
}

/// The mathematical value of an [`Error`].
pub enum ErrorView {
    Engine(Seq<char>),
    Connection(Seq<char>),
    AlreadyFinalized,
    IndexOutOfRange(int),
    TypeMismatch,
    ConcurrencyConflict,
    StaleReference,
}

impl View for Error {
    type V = ErrorView;

    open spec fn view(&self) -> ErrorView {
        match *self {
            Error::Engine(m) => ErrorView::Engine(m@),
            Error::Connection(m) => ErrorView::Connection(m@),
            Error::AlreadyFinalized => ErrorView::AlreadyFinalized,
            Error::IndexOutOfRange(i) => ErrorView::IndexOutOfRange(i as int),
            Error::TypeMismatch => ErrorView::TypeMismatch,
            Error::ConcurrencyConflict => ErrorView::ConcurrencyConflict,
            Error::StaleReference => ErrorView::StaleReference,
        }
    }
}

/// Turns a failure that the engine reported while running a statement into
/// this library's error, with the engine's message word for word.
pub fn engine_failure(e: EngineError) -> (failure: Error)
    ensures
        failure@ == ErrorView::Engine(error_text(e)),
{
    Error::Engine(error_message(&e))
}

/// Passes on what the engine answered to a statement: its result if it
/// succeeded, and if it failed, an engine error with its message.
pub fn surface<T>(reply: Result<T, EngineError>) -> (r: Result<T, Error>)
    ensures
        match reply {
            Ok(v) => r is Ok && r->Ok_0 == v,
            Err(e) => r is Err && r->Err_0@ == ErrorView::Engine(error_text(e)),
        },
{
    match reply {
        Ok(v) => Ok(v),
        Err(e) => Err(engine_failure(e)),
    }
}

/// Turns a failure to open or connect to a database into this library's
/// error, with the engine's message word for word.
pub fn connection_failure(e: EngineError) -> (failure: Error)
    ensures
        failure@ == ErrorView::Connection(error_text(e)),
{
    Error::Connection(error_message(&e))
}

impl Error {
    /// The message that travels with an engine or connection error; empty for
    /// the other kinds, which carry none.
    pub fn message(&self) -> (text: String)
        ensures
            text@ == message_of(self@),
    {
        match self {
            Error::Engine(m) => m.clone(),
            Error::Connection(m) => m.clone(),
            _ => String::new(),
        }
    }
}

/// The message that travels with an error.
pub open spec fn message_of(e: ErrorView) -> Seq<char> {
    match e {
        ErrorView::Engine(m) => m,
        ErrorView::Connection(m) => m,
        _ => Seq::empty(),
    }
}

} // verus!
