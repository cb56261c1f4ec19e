//! The single-use unit of work.

use crate::engine;
use crate::engine::error_text;
use crate::engine::is_local;
use crate::engine::session_of;
use crate::error::engine_failure;
use crate::error::surface;
use crate::error::Error;
use crate::error::ErrorView;
use crate::rows::kind_within;
use crate::rows::name_within;
use crate::rows::Fetched;
use crate::rows::advances;
use crate::rows::Rows;
use crate::value::all_bindable;
use crate::value::bind_parameters;
use crate::value::host_views;
use crate::value::HostValue;
use crate::value::ValueType;
use libsql::Connection as EngineConnection;
use libsql::Error as EngineError;
use libsql::Transaction as EngineTransaction;
use vstd::prelude::*;

verus! {

/// Where a transaction stands in its life.
#[derive(Clone, Copy, Debug, PartialEq, Eq, Structural)]
pub enum TxState {
    /// Begun and not yet ended: statements can run.
    Active,
    /// Ended by a commit that the engine accepted.
    Committed,
    /// Ended by a rollback that the engine accepted.
    RolledBack,
    /// Ended by a commit or rollback that the engine failed. The engine's
    /// transaction is gone all the same.
    Failed,
}

/// The two ways to end a transaction.
#[derive(Clone, Copy, Debug, PartialEq, Eq, Structural)]
pub enum Ending {
    Commit,
    Rollback,
}

/// The state that an ending leads to when the engine accepts it.
pub open spec fn goal_of(ending: Ending) -> TxState {
    match ending {
        Ending::Commit => TxState::Committed,
        Ending::Rollback => TxState::RolledBack,
    }
}

/// What the engine's answer to a commit or rollback makes of the
/// transaction, and what the caller is told: the ending's own state and
/// success if the engine accepted, `Failed` and the engine's message if not.
pub fn settle(ending: Ending, reply: Result<(), EngineError>) -> (settled: (
    TxState,
    Result<(), Error>,
))
    ensures
        match reply {
            Ok(()) => settled.0 == goal_of(ending) && settled.1 is Ok,
            Err(e) => settled.0 == TxState::Failed && settled.1 is Err && settled.1->Err_0@
                == ErrorView::Engine(error_text(e)),
        },
{
    match reply {
        Ok(()) => {
            let state = match ending {
                Ending::Commit => TxState::Committed,
                Ending::Rollback => TxState::RolledBack,
            };
            (state, Ok(()))
        },
        Err(e) => (TxState::Failed, Err(engine_failure(e))),
    }
}

/// Whether a session may begin a transaction: only while it is idle, that
/// is, in autocommit mode. A session in the middle of a unit of work is
/// refused with a concurrency conflict.
pub fn may_begin(session_idle: bool) -> (r: Result<(), Error>)
    ensures
        session_idle ==> r is Ok,
        !session_idle ==> r is Err && r->Err_0@ == ErrorView::ConcurrencyConflict,
{
    if session_idle {
        Ok(())
    } else {
        Err(Error::ConcurrencyConflict)
    }
}

/// The handle of a cursor that a transaction opened. It is good for that
/// transaction only, and only while the transaction is active.
#[derive(Clone, Copy, Debug, PartialEq, Eq, Structural)]
pub struct CursorId {
    pub index: usize,
}

/// An engine transaction that runs on a local session.
struct Held {
    tx: EngineTransaction,
}

impl Held {
    #[verifier::type_invariant]
    spec fn inv(self) -> bool {
        is_local(session_of(self.tx))
    }

    /// The session that the transaction runs on, which is a local one.
    fn session(&self) -> (conn: &EngineConnection)
        ensures
            *conn == session_of(self.tx),
            is_local(*conn),
    {
        proof {
            use_type_invariant(self);
        }
        engine::session(&self.tx)
    }
}

enum Phase {
    Active(Held),
    Committed,
    RolledBack,
    Failed,
}

/// A unit of work on a session. It begins active and is ended once, by
/// `commit` or by `rollback`; after that every use of it is refused.
///
/// The cursors of its queries live inside it and are reached by handle, so
/// that none can outlive it: ending the transaction closes them all.
///
/// A transaction that is dropped while active goes back to libsql as it is,
/// and libsql rolls back what it is handed unfinished.
pub struct Transaction {
    phase: Phase,
    cursors: Vec<Rows>,
    autocommit: bool,
    changes: u64,
    last_insert_rowid: i64,
}

/// What `commit` and `rollback` do to a transaction. An active transaction
/// ends: in the ending's own state if the engine accepts, in `Failed` with
/// the engine's message if it does not, and with all its cursors closed
/// either way. A transaction that has ended stays exactly as it is and the
/// call fails with `AlreadyFinalized`.
pub open spec fn ends(
    before: Transaction,
    after: Transaction,
    r: Result<(), Error>,
    ending: Ending,
) -> bool {
    if before.state() == TxState::Active {
        &&& after.open_cursors() == 0
        &&& match r {
            Ok(()) => after.state() == goal_of(ending),
            Err(e) => after.state() == TxState::Failed && e@ is Engine,
        }
    } else {
        &&& after == before
        &&& r is Err
        &&& r->Err_0@ == ErrorView::AlreadyFinalized
    }
}

impl Transaction {
    /// Where the transaction stands.
    pub closed spec fn state(&self) -> TxState {
        match self.phase {
            Phase::Active(_) => TxState::Active,
            Phase::Committed => TxState::Committed,
            Phase::RolledBack => TxState::RolledBack,
            Phase::Failed => TxState::Failed,
        }
    }

    /// The number of cursors that the transaction holds.
    pub closed spec fn open_cursors(&self) -> nat {
        self.cursors.len() as nat
    }

    /// The cursor behind handle number `i`.
    pub closed spec fn cursor(&self, i: int) -> Rows {
        self.cursors[i]
    }

    /// Whether a handle reaches a cursor: the transaction is active and has
    /// opened a cursor of that number.
    pub open spec fn reaches(&self, id: CursorId) -> bool {
        self.state() == TxState::Active && id.index < self.open_cursors()
    }

    /// The autocommit flag as it was last read from the engine.
    pub closed spec fn seen_autocommit(&self) -> bool {
        self.autocommit
    }

    /// The change count as it was last read from the engine.
    pub closed spec fn seen_changes(&self) -> u64 {
        self.changes
    }

    /// The last inserted row id as it was last read from the engine.
    pub closed spec fn seen_rowid(&self) -> i64 {
        self.last_insert_rowid
    }

    /// The engine's transaction that this one holds: some while it is
    /// active, none once it has ended.
    pub closed spec fn held(&self) -> Option<EngineTransaction> {
        match self.phase {
            Phase::Active(held) => Some(held.tx),
            _ => None,
        }
    }

    /// The slot follows the state: a transaction holds the engine's
    /// transaction exactly while it is active.
    pub proof fn lemma_held_while_active(self)
        ensures
            self.held() is Some <==> self.state() == TxState::Active,
    {
    }

    /// Keeps three readings of the engine as the ones seen last. Nothing
    /// else about the transaction changes.
    pub(crate) fn keep_readings(&mut self, autocommit: bool, changes: u64, last_insert_rowid: i64)
        ensures
            final(self).seen_autocommit() == autocommit,
            final(self).seen_changes() == changes,
            final(self).seen_rowid() == last_insert_rowid,
            final(self).state() == old(self).state(),
            final(self).held() == old(self).held(),
            final(self).open_cursors() == old(self).open_cursors(),
            forall|i: int| final(self).cursor(i) == old(self).cursor(i),
    {
        self.autocommit = autocommit;
        self.changes = changes;
        self.last_insert_rowid = last_insert_rowid;
    }

    /// Wraps a transaction that the engine has just begun: the new
    /// transaction holds it, is active, and has no cursor yet. The engine's
    /// three readings are taken once, here, and kept.
    pub(crate) fn started(tx: EngineTransaction) -> (t: Transaction)
        requires
            is_local(session_of(tx)),
        ensures
            t.held() == Some(tx),
            t.state() == TxState::Active,
            t.open_cursors() == 0,
    {
        let conn = engine::session(&tx);
        let autocommit = engine::is_autocommit(conn);
        let changes = engine::changes(conn);
        let last_insert_rowid = engine::last_insert_rowid(conn);
        let mut t = Transaction {
            phase: Phase::Active(Held { tx }),
            cursors: Vec::new(),
            autocommit: false,
            changes: 0,
            last_insert_rowid: 0,
        };
        t.keep_readings(autocommit, changes, last_insert_rowid);
        t
    }

    /// Where the transaction stands.
    pub fn current_state(&self) -> (s: TxState)
        ensures
            s == self.state(),
    {
        match &self.phase {
            Phase::Active(_) => TxState::Active,
            Phase::Committed => TxState::Committed,
            Phase::RolledBack => TxState::RolledBack,
            Phase::Failed => TxState::Failed,
        }
    }

    /// Runs one statement with positional parameters and waits for it: the
    /// number of rows it changed.
    ///
    /// Refused with `AlreadyFinalized` once the transaction has ended, and
    /// with `TypeMismatch`, before the engine sees anything, if a parameter
    /// is not a string. Otherwise the engine decides, and its failure is
    /// passed on with its message.
    pub fn execute(&self, sql: &str, params: &Vec<HostValue>) -> (r: Result<u64, Error>)
        ensures
            self.state() != TxState::Active ==> r is Err && r->Err_0@
                == ErrorView::AlreadyFinalized,
            self.state() == TxState::Active && !all_bindable(host_views(params@)) ==> r is Err
                && r->Err_0@ == ErrorView::TypeMismatch,
            self.state() == TxState::Active && all_bindable(host_views(params@)) ==> r is Ok
                || r->Err_0@ is Engine,
    {
        match &self.phase {
            Phase::Active(held) => {
                let bound = match bind_parameters(params) {
                    Ok(b) => b,
                    Err(e) => {
                        return Err(e);
                    },
                };
                surface(engine::execute(held.session(), sql, bound))
            },
            _ => Err(Error::AlreadyFinalized),
        }
    }

    /// The engine's session that the transaction runs on, for what is the
    /// caller's to run there: a batch of statements. It is the session of
    /// the engine's transaction that this one holds, and a local one.
    ///
    /// Refused with `AlreadyFinalized` once the transaction has ended.
    pub fn session(&self) -> (r: Result<&EngineConnection, Error>)
        ensures
            self.state() == TxState::Active ==> r is Ok && self.held() is Some && *r->Ok_0
                == session_of(self.held()->Some_0) && is_local(*r->Ok_0),
            self.state() != TxState::Active ==> r is Err && r->Err_0@
                == ErrorView::AlreadyFinalized,
    {
        match &self.phase {
            Phase::Active(held) => Ok(held.session()),
            _ => Err(Error::AlreadyFinalized),
        }
    }

    /// Runs a query with positional parameters, waits for it, and opens a
    /// cursor over its results inside the transaction. The handle that comes
    /// back is the number of the new cursor.
    ///
    /// Refused like [`execute`](Transaction::execute); a refusal or a failure
    /// opens nothing.
    pub fn query(&mut self, sql: &str, params: &Vec<HostValue>) -> (r: Result<CursorId, Error>)
        ensures
            final(self).state() == old(self).state(),
            old(self).state() != TxState::Active ==> r is Err && r->Err_0@
                == ErrorView::AlreadyFinalized,
            old(self).state() == TxState::Active && !all_bindable(host_views(params@)) ==> r is Err
                && r->Err_0@ == ErrorView::TypeMismatch,
            old(self).state() == TxState::Active && all_bindable(host_views(params@)) ==> r is Ok
                || r->Err_0@ is Engine,
            match r {
                Ok(id) => {
                    &&& id.index == old(self).open_cursors()
                    &&& final(self).open_cursors() == old(self).open_cursors() + 1
                    &&& !final(self).cursor(id.index as int).is_exhausted()
                    &&& forall|i: int|
                        0 <= i < old(self).open_cursors() ==> final(self).cursor(i) == old(
                            self,
                        ).cursor(i)
                },
                Err(_) => *final(self) == *old(self),
            },
    {
        let opened = match &self.phase {
            Phase::Active(held) => {
                let bound = match bind_parameters(params) {
                    Ok(b) => b,
                    Err(e) => {
                        return Err(e);
                    },
                };
                match surface(engine::query(held.session(), sql, bound)) {
                    Ok(rows) => Rows::over(rows),
                    Err(e) => {
                        return Err(e);
                    },
                }
            },
            _ => {
                return Err(Error::AlreadyFinalized);
            },
        };
        let index = self.cursors.len();
        self.cursors.push(opened);
        Ok(CursorId { index })
    }

    /// Advances the cursor behind a handle, as [`Rows::next`] does.
    ///
    /// A handle that reaches no cursor — the transaction has ended, or never
    /// opened a cursor of that number — is refused with `StaleReference`, and
    /// nothing is touched.
    pub fn next(&mut self, id: CursorId) -> (r: Result<Option<Fetched>, Error>)
        ensures
            final(self).state() == old(self).state(),
            final(self).open_cursors() == old(self).open_cursors(),
            !old(self).reaches(id) ==> *final(self) == *old(self) && r is Err && r->Err_0@
                == ErrorView::StaleReference,
            old(self).reaches(id) ==> advances(
                old(self).cursor(id.index as int),
                final(self).cursor(id.index as int),
                r,
            ),
            forall|i: int|
                0 <= i < old(self).open_cursors() && i != id.index ==> final(self).cursor(i) == old(
                    self,
                ).cursor(i),
    {
        match &self.phase {
            Phase::Active(_) => {},
            _ => {
                return Err(Error::StaleReference);
            },
        }
        if id.index >= self.cursors.len() {
            return Err(Error::StaleReference);
        }
        self.cursors[id.index].next()
    }

    /// The column count of the cursor behind a handle; `StaleReference` if
    /// the handle reaches none.
    pub fn column_count(&self, id: CursorId) -> (r: Result<i32, Error>)
        ensures
            self.reaches(id) ==> r == Ok::<i32, Error>(
                self.cursor(id.index as int).width() as i32,
            ),
            !self.reaches(id) ==> r is Err && r->Err_0@ == ErrorView::StaleReference,
    {
        match &self.phase {
            Phase::Active(_) => {},
            _ => {
                return Err(Error::StaleReference);
            },
        }
        if id.index >= self.cursors.len() {
            return Err(Error::StaleReference);
        }
        Ok(self.cursors[id.index].column_count())
    }

    /// The cursor behind a handle; `StaleReference` if the handle reaches
    /// none.
    pub fn rows(&self, id: CursorId) -> (r: Result<&Rows, Error>)
        ensures
            self.reaches(id) ==> r is Ok && *r->Ok_0 == self.cursor(id.index as int),
            !self.reaches(id) ==> r is Err && r->Err_0@ == ErrorView::StaleReference,
    {
        match &self.phase {
            Phase::Active(_) => {},
            _ => {
                return Err(Error::StaleReference);
            },
        }
        if id.index >= self.cursors.len() {
            return Err(Error::StaleReference);
        }
        Ok(&self.cursors[id.index])
    }

    /// The name of column `i` of the cursor behind a handle, given what the
    /// engine reported for that index, as [`Rows::column_name`] gives it;
    /// `StaleReference` if the handle reaches no cursor.
    pub fn column_name(&self, id: CursorId, i: i32, reported: Option<String>) -> (r: Result<
        Option<String>,
        Error,
    >)
        ensures
            self.reaches(id) ==> r is Ok && (match name_within(
                self.cursor(id.index as int).width(),
                i as int,
                match reported {
                    Some(text) => Some(text@),
                    None => None,
                },
            ) {
                Some(text) => r->Ok_0 is Some && r->Ok_0->Some_0@ == text,
                None => r->Ok_0 is None,
            }),
            !self.reaches(id) ==> r is Err && r->Err_0@ == ErrorView::StaleReference,
    {
        match &self.phase {
            Phase::Active(_) => {},
            _ => {
                return Err(Error::StaleReference);
            },
        }
        if id.index >= self.cursors.len() {
            return Err(Error::StaleReference);
        }
        Ok(self.cursors[id.index].column_name(i, reported))
    }

    /// The kind of column `i` of the cursor behind a handle, as
    /// [`Rows::column_type`] gives it; `StaleReference` if the handle reaches
    /// no cursor.
    pub fn column_type(&self, id: CursorId, i: i32) -> (r: Result<ValueType, Error>)
        ensures
            !self.reaches(id) ==> r is Err && r->Err_0@ == ErrorView::StaleReference,
            self.reaches(id) ==> kind_within(self.cursor(id.index as int), i as int, r),
    {
        match &self.phase {
            Phase::Active(_) => {},
            _ => {
                return Err(Error::StaleReference);
            },
        }
        if id.index >= self.cursors.len() {
            return Err(Error::StaleReference);
        }
        self.cursors[id.index].column_type(i)
    }

    /// Whether the session is in autocommit mode: asked of the engine while
    /// the transaction is active, and the answer it gave last once the
    /// transaction has ended.
    pub fn is_autocommit(&self) -> (flag: bool)
        ensures
            self.state() != TxState::Active ==> flag == self.seen_autocommit(),
    {
        match &self.phase {
            Phase::Active(held) => engine::is_autocommit(held.session()),
            _ => self.autocommit,
        }
    }

    /// The rows changed by the last statement: asked of the engine while the
    /// transaction is active, and the answer it gave last once the
    /// transaction has ended.
    pub fn changes(&self) -> (n: u64)
        ensures
            self.state() != TxState::Active ==> n == self.seen_changes(),
    {
        match &self.phase {
            Phase::Active(held) => engine::changes(held.session()),
            _ => self.changes,
        }
    }

    /// The id of the row inserted last: asked of the engine while the
    /// transaction is active, and the answer it gave last once the
    /// transaction has ended.
    pub fn last_insert_rowid(&self) -> (id: i64)
        ensures
            self.state() != TxState::Active ==> id == self.seen_rowid(),
    {
        match &self.phase {
            Phase::Active(held) => engine::last_insert_rowid(held.session()),
            _ => self.last_insert_rowid,
        }
    }

    /// Ends the transaction in the given way. The engine's transaction is
    /// taken out of this one before the engine is called, so that whatever
    /// the engine answers, it cannot be reached again.
    pub fn finish(&mut self, ending: Ending) -> (r: Result<(), Error>)
        ensures
            ends(*old(self), *final(self), r, ending),
    {
        let mut phase = Phase::Failed;
        core::mem::swap(&mut self.phase, &mut phase);
        match phase {
            Phase::Active(held) => {
                proof {
                    use_type_invariant(&held);
                }
                let Held { tx } = held;
                let conn = engine::session(&tx);
                let autocommit = engine::is_autocommit(conn);
                let changes = engine::changes(conn);
                let last_insert_rowid = engine::last_insert_rowid(conn);
                self.keep_readings(autocommit, changes, last_insert_rowid);
                self.cursors = Vec::new();
                let reply = match ending {
                    Ending::Commit => engine::commit(tx),
                    Ending::Rollback => engine::rollback(tx),
                };
                let (state, result) = settle(ending, reply);
                self.phase = match state {
                    TxState::Committed => Phase::Committed,
                    TxState::RolledBack => Phase::RolledBack,
                    _ => Phase::Failed,
                };
                result
            },
            Phase::Committed => {
                self.phase = Phase::Committed;
                Err(Error::AlreadyFinalized)
            },
            Phase::RolledBack => {
                self.phase = Phase::RolledBack;
                Err(Error::AlreadyFinalized)
            },
            Phase::Failed => Err(Error::AlreadyFinalized),
        }
    }

    /// Commits the transaction and ends it.
    pub fn commit(&mut self) -> (r: Result<(), Error>)
        ensures
            ends(*old(self), *final(self), r, Ending::Commit),
    {
        self.finish(Ending::Commit)
    }

    /// Rolls the transaction back and ends it.
    pub fn rollback(&mut self) -> (r: Result<(), Error>)
        ensures
            ends(*old(self), *final(self), r, Ending::Rollback),
    {
        self.finish(Ending::Rollback)
    }
}

} // verus!
