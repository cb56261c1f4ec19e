//! A live session on a database.

use crate::engine;
use crate::engine::error_text;
use crate::engine::is_local;
use crate::error::connection_failure;
use crate::error::surface;
use crate::error::Error;
use crate::error::ErrorView;
use crate::rows::Rows;
use crate::transaction::may_begin;
use crate::transaction::Transaction;
use crate::transaction::TxState;
use crate::value::all_bindable;
use crate::value::bind_parameters;
use crate::value::host_views;
use crate::value::HostValue;
use libsql::Connection as EngineConnection;
use libsql::Error as EngineError;
use vstd::prelude::*;

verus! {

/// A session on a database. Statements run on it one at a time, each call
/// returning only when the engine has finished with it.
pub struct Connection {
    inner: EngineConnection,
}

/// What the engine's answer to a request for a session comes to: a
/// connection on the session it opened, or a connection error with the
/// engine's message.
///
/// A session in the answer must run on a local database.
pub fn connected(reply: Result<EngineConnection, EngineError>) -> (r: Result<Connection, Error>)
    requires
        reply is Ok ==> is_local(reply->Ok_0),
    ensures
        match reply {
            Ok(session) => r is Ok && r->Ok_0.session() == session,
            Err(e) => r is Err && r->Err_0@ == ErrorView::Connection(error_text(e)),
        },
{
    match reply {
        Ok(session) => Ok(Connection::over(session)),
        Err(e) => Err(connection_failure(e)),
    }
}

impl Connection {
    #[verifier::type_invariant]
    spec fn inv(self) -> bool {
        is_local(self.inner)
    }

    /// The engine's session that this connection runs on.
    pub closed spec fn session(&self) -> EngineConnection {
        self.inner
    }

    /// Wraps a session that the engine has opened: the connection runs on
    /// that session.
    pub(crate) fn over(inner: EngineConnection) -> (conn: Connection)
        requires
            is_local(inner),
        ensures
            conn.session() == inner,
    {
        Connection { inner }
    }

    /// Runs one statement with positional parameters and waits for it: the
    /// number of rows it changed.
    ///
    /// A parameter that is not a string is refused with `TypeMismatch`
    /// before the engine sees anything. Otherwise the engine decides, and its
    /// failure is passed on with its message.
    pub fn execute(&self, sql: &str, params: &Vec<HostValue>) -> (r: Result<u64, Error>)
        ensures
            !all_bindable(host_views(params@)) ==> r is Err && r->Err_0@
                == ErrorView::TypeMismatch,
            all_bindable(host_views(params@)) ==> r is Ok || r->Err_0@ is Engine,
    {
        let bound = match bind_parameters(params) {
            Ok(b) => b,
            Err(e) => {
                return Err(e);
            },
        };
        proof {
            use_type_invariant(self);
        }
        surface(engine::execute(&self.inner, sql, bound))
    }

    /// Runs a query with positional parameters, waits for it, and hands out
    /// a cursor at the start of its results.
    ///
    /// Refused and failed like [`execute`](Connection::execute).
    pub fn query(&self, sql: &str, params: &Vec<HostValue>) -> (r: Result<Rows, Error>)
        ensures
            !all_bindable(host_views(params@)) ==> r is Err && r->Err_0@
                == ErrorView::TypeMismatch,
            all_bindable(host_views(params@)) ==> r is Ok || r->Err_0@ is Engine,
            r is Ok ==> !r->Ok_0.is_exhausted(),
    {
        let bound = match bind_parameters(params) {
            Ok(b) => b,
            Err(e) => {
                return Err(e);
            },
        };
        proof {
            use_type_invariant(self);
        }
        match surface(engine::query(&self.inner, sql, bound)) {
            Ok(rows) => Ok(Rows::over(rows)),
            Err(e) => Err(e),
        }
    }

    /// Begins a transaction on this session and waits for the engine to
    /// have begun it. The transaction comes back active, with no cursor.
    ///
    /// A session that is in the middle of a unit of work is refused with
    /// `ConcurrencyConflict` and the engine is not asked to begin another.
    /// A failure of the engine to begin is passed on with its message.
    pub fn transaction(&self) -> (r: Result<Transaction, Error>)
        ensures
            match r {
                Ok(t) => t.state() == TxState::Active && t.open_cursors() == 0,
                Err(e) => e@ == ErrorView::ConcurrencyConflict || e@ is Engine,
            },
    {
        match may_begin(engine::is_autocommit(&self.inner)) {
            Ok(()) => {},
            Err(e) => {
                return Err(e);
            },
        }
        proof {
            use_type_invariant(self);
        }
        match surface(engine::begin(&self.inner)) {
            Ok(tx) => Ok(Transaction::started(tx)),
            Err(e) => Err(e),
        }
    }

    /// The rows changed by the last statement, as the engine counts them.
    pub fn changes(&self) -> u64 {
        engine::changes(&self.inner)
    }

    /// The id of the row inserted last, as the engine reports it.
    pub fn last_insert_rowid(&self) -> i64 {
        engine::last_insert_rowid(&self.inner)
    }
}

} // verus!
