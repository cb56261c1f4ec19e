//! Opening databases.

use crate::connection::connected;
use crate::connection::Connection;
use crate::engine;
use crate::engine::database_path;
use crate::engine::error_text;
use crate::error::connection_failure;
use crate::error::Error;
use crate::error::ErrorView;
use libsql::Database as EngineDatabase;
use libsql::Error as EngineError;
use vstd::prelude::*;
use vstd::string::*;
use vstd::utf8::encode_utf8;

verus! {

/// A local database that has been opened and not yet connected to: the
/// engine's handle, and beside it the path that it was opened at.
pub struct Database {
    inner: EngineDatabase,
    text: String,
}

/// Whether a path can be connected to: only if it holds no zero byte, which
/// no file name has and the engine could not pass on.
pub open spec fn usable_path(bytes: Seq<u8>) -> bool {
    !bytes.contains(0u8)
}

/// What connecting at an unusable path is refused with.
pub open spec fn unusable_path_message() -> Seq<char> {
    "the path holds a zero byte"@
}

/// Whether a handle is one that the engine's local builder made of a path:
/// it holds that path, or, where the builder took the path for the
/// in-memory database, `:memory:`.
pub open spec fn built_from(db: EngineDatabase, path: Seq<u8>) -> bool {
    database_path(db) == Some(path) || database_path(db) == Some(":memory:".spec_bytes())
}

/// What the engine's answer to a request to open a local database at `path`
/// comes to: the handle with the path beside it, or a connection error with
/// the engine's message.
///
/// A handle in the answer must be one that the builder made of `path`.
pub fn opened(path: &str, reply: Result<EngineDatabase, EngineError>) -> (r: Result<
    Database,
    Error,
>)
    requires
        reply is Ok ==> built_from(reply->Ok_0, path.spec_bytes()),
    ensures
        match reply {
            Ok(db) => r is Ok && r->Ok_0.handle() == db && r->Ok_0.path() == path.spec_bytes(),
            Err(e) => r is Err && r->Err_0@ == ErrorView::Connection(error_text(e)),
        },
{
    match reply {
        Ok(inner) => Ok(Database { inner, text: path.to_owned() }),
        Err(e) => Err(connection_failure(e)),
    }
}

/// Whether a path holds a zero byte.
fn holds_zero(path: &str) -> (found: bool)
    ensures
        found == !usable_path(path.spec_bytes()),
{
    let bytes = path.as_bytes();
    let mut i: usize = 0;
    while i < bytes.len()
        invariant
            i <= bytes.len(),
            bytes@ == path.spec_bytes(),
            forall|j: int| 0 <= j < i ==> bytes@[j] != 0u8,
        decreases bytes.len() - i,
    {
        if bytes[i] == 0 {
            return true;
        }
        i = i + 1;
    }
    false
}

/// The path of the in-memory database holds no zero byte.
proof fn lemma_memory_path_usable()
    ensures
        usable_path(":memory:".spec_bytes()),
{
    let marker = ":memory:";
    reveal_strlit(":memory:");
    assert(is_ascii(marker)) by {
        assert forall|i: int| 0 <= i < marker@.len() implies (marker@[i] as u32) < 128 by {
            assert(marker@ =~= seq![':', 'm', 'e', 'm', 'o', 'r', 'y', ':']);
        }
    }
    is_ascii_spec_bytes(marker);
    assert forall|i: int| 0 <= i < marker.spec_bytes().len() implies marker.spec_bytes()[i]
        != 0u8 by {
        assert(marker@ =~= seq![':', 'm', 'e', 'm', 'o', 'r', 'y', ':']);
    }
}

/// Opens a database that lives in memory and is gone when it is dropped:
/// the database at the path `:memory:`.
pub fn open_in_memory() -> (r: Result<Database, Error>)
    ensures
        match r {
            Ok(db) => db.path() == ":memory:".spec_bytes(),
            Err(e) => e@ is Connection,
        },
{
    open_file(":memory:")
}

/// Opens the database in the file at `path`, creating it if the engine does.
///
/// The path goes to the engine as it is, and the engine decides: its refusal
/// is a connection error with its message, and the handle that comes back is
/// kept with the path beside it.
pub fn open_file(path: &str) -> (r: Result<Database, Error>)
    ensures
        match r {
            Ok(db) => db.path() == path.spec_bytes(),
            Err(e) => e@ is Connection,
        },
{
    opened(path, engine::open_local(path))
}

impl Database {
    #[verifier::type_invariant]
    spec fn inv(self) -> bool {
        built_from(self.inner, encode_utf8(self.text@))
    }

    /// The bytes of the path that the database was opened at.
    pub closed spec fn path(&self) -> Seq<u8> {
        encode_utf8(self.text@)
    }

    /// The engine's handle on the database.
    pub closed spec fn handle(&self) -> EngineDatabase {
        self.inner
    }

    /// Opens a session on the database.
    ///
    /// A database whose path holds a zero byte is refused with a connection
    /// error of this library's own: the engine could not pass such a path on.
    /// For any other the engine decides, and its failure is a connection
    /// error with its message.
    pub fn connect(&self) -> (r: Result<Connection, Error>)
        ensures
            !usable_path(self.path()) ==> r is Err && r->Err_0@ == ErrorView::Connection(
                unusable_path_message(),
            ),
            r is Ok || r->Err_0@ is Connection,
    {
        proof {
            use_type_invariant(self);
            lemma_memory_path_usable();
        }
        if holds_zero(self.text.as_str()) {
            return Err(Error::Connection(String::from_str("the path holds a zero byte")));
        }
        connected(engine::connect(&self.inner))
    }
}

} // verus!
