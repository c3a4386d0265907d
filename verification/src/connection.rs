//! A database connection: how it is opened and configured, and its statement cache.
use vstd::prelude::*;
use vstd::string::StringSliceAdditionalSpecFns;
use crate::cache::{
    cached, displaced, handle_of, inserted, lemma_hit_stays_cached, lemma_inserted_is_cached,
    looked_up, Entry, StatementCache,
};
use crate::code::{out_of_order, SQLITE_OK};
use crate::error::{
    message_bytes, try_result, ConfigureError, DatabaseError, OpenError, PrepareError, StringError,
};
use crate::handle::NativeHandle;
use crate::statement::Statement;
use crate::text::{is_first_nul, to_nul_string};

verus! {

/// How many compiled statements a connection caches.
pub const STATEMENT_CACHE_SIZE: usize = 24;

/// How long, in milliseconds, the engine waits for a lock before it reports busy.
pub const BUSY_TIMEOUT_MILLIS: i32 = 5000;

/// The threading mode in which the engine serializes the access to a handle.
pub const SERIALIZE_MODE: i32 = 1;

/// A setting that is made on a connection once it is open.
#[derive(Debug, Clone, Copy, PartialEq, Eq, Structural)]
pub enum Configure {
    /// Switch the extended result codes on or off.
    ExtendedResultCodes(bool),
    /// Have the engine wait for a lock this many milliseconds.
    BusyTimeout(i32),
}

/// Database connection: the database handle and the statements compiled on it.
pub struct Connection {
    handle: NativeHandle,
    stmts: StatementCache,
    compiles: u64,
}

/// Returns `true` if sqlite is compiled with serialize mode enabled, given the
/// threading mode that it reports.
pub fn is_threadsafe(mode: i32) -> (b: bool)
    ensures
        b == (mode == SERIALIZE_MODE),
{
    mode == SERIALIZE_MODE
}

/// What to open, before the engine is asked: the path as the engine takes it, with a
/// terminating zero byte. An engine that is not in serialized mode is refused, for
/// its handles could not be shared between threads; so is a path that holds a zero
/// byte.
pub fn open_path(mode: i32, path: &str) -> (r: Result<Vec<u8>, OpenError>)
    ensures
        mode != SERIALIZE_MODE ==> r matches Err(OpenError::NotSerializeMode),
        r matches Err(OpenError::NotSerializeMode) ==> mode != SERIALIZE_MODE,
        r matches Err(OpenError::String(e)) ==> e is NulError && is_first_nul(
            path.spec_bytes(),
            e->position as int,
        ),
        r matches Ok(bytes) ==> mode == SERIALIZE_MODE && bytes@ == path.spec_bytes().push(0u8)
            && forall|i: int| 0 <= i < path.spec_bytes().len() ==> path.spec_bytes()[i] != 0,
        !(r matches Err(OpenError::Database(_))),
{
    if !is_threadsafe(mode) {
        return Err(OpenError::NotSerializeMode);
    }
    match to_nul_string(path) {
        Ok(bytes) => Ok(bytes),
        Err(e) => Err(OpenError::String(e)),
    }
}

/// Reads the result of the native open. `no_handle` says that the engine handed out
/// no handle at all, which is an error whatever the code, with no message to ask for.
pub fn open_result(result: i32, no_handle: bool, errmsg: Option<&[u8]>) -> (r: Result<
    (),
    OpenError,
>)
    requires
        !out_of_order(result),
    ensures
        r is Ok <==> !no_handle && result == SQLITE_OK,
        r matches Err(e) ==> e matches OpenError::Database(d) && d.reports(
            result,
            if no_handle {
                None
            } else {
                message_bytes(errmsg)
            },
        ),
{
    if no_handle {
        return Err(OpenError::Database(DatabaseError::from_code(result, None)));
    }
    match try_result(result, errmsg) {
        Ok(()) => Ok(()),
        Err(e) => Err(OpenError::Database(e)),
    }
}

/// Reads the result of a call that configures a connection.
pub fn configure_result(code: i32, errmsg: Option<&[u8]>) -> (r: Result<(), ConfigureError>)
    requires
        !out_of_order(code),
    ensures
        r is Ok <==> code == SQLITE_OK,
        r matches Err(e) ==> e.0.reports(code, message_bytes(errmsg)),
{
    match try_result(code, errmsg) {
        Ok(()) => Ok(()),
        Err(e) => Err(ConfigureError(e)),
    }
}

/// Reads the result of the call that compiles a statement.
pub fn prepare_result(code: i32, errmsg: Option<&[u8]>) -> (r: Result<(), PrepareError>)
    requires
        !out_of_order(code),
    ensures
        r is Ok <==> code == SQLITE_OK,
        r matches Err(e) ==> e.0.reports(code, message_bytes(errmsg)),
{
    match try_result(code, errmsg) {
        Ok(()) => Ok(()),
        Err(e) => Err(PrepareError(e)),
    }
}

/// The busy timeout that the engine is given for a wait of `millis` milliseconds:
/// the same number, or the largest the engine takes where the wait is longer.
pub fn busy_timeout_millis(millis: u128) -> (ms: i32)
    ensures
        millis <= i32::MAX ==> ms == millis,
        millis > i32::MAX ==> ms == i32::MAX,
{
    if millis > 0x7fff_ffff {
        i32::MAX
    } else {
        millis as i32
    }
}

impl Connection {
    /// The cached statements, the one used last first.
    pub closed spec fn cache(&self) -> Seq<Entry> {
        self.stmts@
    }

    /// The most statements that the connection caches.
    pub closed spec fn capacity(&self) -> nat {
        self.stmts.capacity()
    }

    /// The database handle of the connection.
    pub closed spec fn database(&self) -> u64 {
        self.handle.token()
    }

    /// Whether the database handle is still to be released.
    pub closed spec fn spec_is_open(&self) -> bool {
        self.handle.is_live()
    }

    /// How many statements were compiled for the connection.
    pub closed spec fn spec_compiles(&self) -> u64 {
        self.compiles
    }

    /// The cache has room for a statement, and holds no more than its capacity.
    pub open spec fn wf(&self) -> bool {
        0 < self.capacity() && self.cache().len() <= self.capacity()
    }

    /// How the connection `pre` answers the request to prepare `sql`, and what it
    /// becomes: a cached statement is handed out and becomes the one used last, and
    /// nothing is compiled.
    pub open spec fn prepares(
        pre: Self,
        sql: Seq<char>,
        post: Self,
        stmt: Option<Statement>,
    ) -> bool {
        &&& post.database() == pre.database()
        &&& post.spec_is_open() == pre.spec_is_open()
        &&& post.capacity() == pre.capacity()
        &&& post.spec_compiles() == pre.spec_compiles()
        &&& post.cache() == looked_up(pre.cache(), sql)
        &&& match cached(pre.cache(), sql) {
            Some(handle) => stmt matches Some(s) && s.spec_handle() == handle,
            None => stmt.is_none(),
        }
    }

    /// How the connection `pre` takes in the statement `handle` that was compiled for
    /// `sql`, and what it becomes.
    pub open spec fn admits(
        pre: Self,
        sql: Seq<char>,
        handle: u64,
        post: Self,
        r: (Statement, Option<u64>),
    ) -> bool {
        &&& post.database() == pre.database()
        &&& post.spec_is_open() == pre.spec_is_open()
        &&& post.capacity() == pre.capacity()
        &&& post.spec_compiles() == if pre.spec_compiles() < u64::MAX {
            (pre.spec_compiles() + 1) as u64
        } else {
            u64::MAX
        }
        &&& post.cache() == inserted(pre.cache(), pre.capacity(), sql, handle)
        &&& r.0.spec_handle() == handle
        &&& r.1 == handle_of(displaced(pre.cache(), pre.capacity(), sql))
    }

    /// How closing the connection `pre` turns out: every cached statement leaves the
    /// cache, to be finalized, the one used least recently first; and after them the
    /// database handle is owed its release, unless it was released before.
    pub open spec fn closes(pre: Self, post: Self, r: (Vec<u64>, Option<u64>)) -> bool {
        &&& post.database() == pre.database()
        &&& !post.spec_is_open()
        &&& post.capacity() == pre.capacity()
        &&& post.spec_compiles() == pre.spec_compiles()
        &&& post.cache().len() == 0
        &&& r.0@.len() == pre.cache().len()
        &&& forall|i: int|
            0 <= i < r.0@.len() ==> r.0@[i] == (#[trigger] pre.cache()[pre.cache().len() - 1
                - i]).1
        &&& r.1 == if pre.spec_is_open() {
            Some(pre.database())
        } else {
            None
        }
    }

    /// The connection on the database handle `database`, just opened, with an empty
    /// statement cache of the usual size.
    pub fn new(database: u64) -> (conn: Self)
        ensures
            conn.wf(),
            conn.spec_is_open(),
            conn.database() == database,
            conn.cache() == Seq::<Entry>::empty(),
            conn.capacity() == STATEMENT_CACHE_SIZE,
            conn.spec_compiles() == 0,
    {
        Connection {
            handle: NativeHandle::new(database),
            stmts: StatementCache::new(STATEMENT_CACHE_SIZE),
            compiles: 0,
        }
    }

    /// The connection on the database handle `database`, just opened, with an empty
    /// statement cache for at most `capacity` statements.
    pub fn with_cache_size(database: u64, capacity: usize) -> (conn: Self)
        requires
            capacity > 0,
        ensures
            conn.wf(),
            conn.spec_is_open(),
            conn.database() == database,
            conn.cache() == Seq::<Entry>::empty(),
            conn.capacity() == capacity,
            conn.spec_compiles() == 0,
    {
        Connection {
            handle: NativeHandle::new(database),
            stmts: StatementCache::new(capacity),
            compiles: 0,
        }
    }

    /// Whether the database handle is still to be released.
    #[verifier::when_used_as_spec(spec_is_open)]
    pub fn is_open(&self) -> (b: bool)
        ensures
            b == self.spec_is_open(),
    {
        self.handle.get().is_some()
    }

    /// The settings that are made once the connection is open, in their order.
    pub fn configuration() -> (settings: (Configure, Configure))
        ensures
            settings == (
                Configure::ExtendedResultCodes(true),
                Configure::BusyTimeout(BUSY_TIMEOUT_MILLIS),
            ),
    {
        (Configure::ExtendedResultCodes(true), Configure::BusyTimeout(BUSY_TIMEOUT_MILLIS))
    }

    /// How many statements were compiled for the connection.
    #[verifier::when_used_as_spec(spec_compiles)]
    pub fn compiles(&self) -> (n: u64)
        ensures
            n == self.spec_compiles(),
    {
        self.compiles
    }

    /// How many statements are cached.
    pub fn cached_statements(&self) -> (n: usize)
        ensures
            n == self.cache().len(),
    {
        self.stmts.len()
    }

    /// Create a prepared statement.
    ///
    /// Prepared statement is cached internally: for a text that was compiled before
    /// and is still cached, the statement comes back at rest and nothing is compiled.
    /// `None` says that the text has to be compiled, and then handed to
    /// [`Connection::compiled`].
    pub fn prepare(&mut self, sql: &str) -> (stmt: Option<Statement>)
        requires
            old(self).wf(),
        ensures
            final(self).wf(),
            Self::prepares(*old(self), sql@, *final(self), stmt),
    {
        match self.stmts.lookup(sql) {
            Some(handle) => Some(Statement::new(handle)),
            None => None,
        }
    }

    /// Closes the connection. The result holds the native releases that are owed, in
    /// the order to make them: first the handles of all cached statements, to be
    /// finalized, the one used least recently first; then the database handle, to be
    /// closed. A connection that was closed before owes nothing.
    pub fn close(&mut self) -> (r: (Vec<u64>, Option<u64>))
        requires
            old(self).wf(),
        ensures
            final(self).wf(),
            Self::closes(*old(self), *final(self), r),
    {
        let statements = self.stmts.clear();
        let database = self.handle.close();
        (statements, database)
    }

    /// Takes the statement that was compiled for `sql` into the cache and hands it
    /// out. With it comes the handle that left the cache for it, which the caller
    /// finalizes: that of the statement used least recently, where the cache was full.
    ///
    /// Nothing is compiled on a closed connection: the connection must be open.
    pub fn compiled(&mut self, sql: &str, handle: u64) -> (r: (Statement, Option<u64>))
        requires
            old(self).wf(),
            old(self).spec_is_open(),
        ensures
            final(self).wf(),
            Self::admits(*old(self), sql@, handle, *final(self), r),
    {
        let evicted = self.stmts.insert(sql, handle);
        if self.compiles < u64::MAX {
            self.compiles = self.compiles + 1;
        }
        (Statement::new(handle), evicted)
    }
}

/// Once a text was compiled for a connection, preparing it again, and again, hands
/// out the statement that was compiled, and compiles nothing more.
pub proof fn lemma_prepared_twice_compiles_once(
    fresh: Connection,
    sql: Seq<char>,
    handle: u64,
    compiled: Connection,
    taken: (Statement, Option<u64>),
    once: Connection,
    first: Option<Statement>,
    twice: Connection,
    second: Option<Statement>,
)
    requires
        Connection::admits(fresh, sql, handle, compiled, taken),
        Connection::prepares(compiled, sql, once, first),
        Connection::prepares(once, sql, twice, second),
    ensures
        first matches Some(s) && s.spec_handle() == handle,
        second matches Some(s) && s.spec_handle() == handle,
        twice.spec_compiles() == compiled.spec_compiles(),
{
    lemma_inserted_is_cached(fresh.cache(), fresh.capacity(), sql, handle);
    lemma_hit_stays_cached(compiled.cache(), sql);
}

/// A connection is closed once: the first close owes the release of every cached
/// statement and then of the database handle; a second close owes nothing.
pub proof fn lemma_closed_once(
    open: Connection,
    closed: Connection,
    first: (Vec<u64>, Option<u64>),
    again: Connection,
    second: (Vec<u64>, Option<u64>),
)
    requires
        open.spec_is_open(),
        Connection::closes(open, closed, first),
        Connection::closes(closed, again, second),
    ensures
        first.0@.len() == open.cache().len(),
        first.1 == Some(open.database()),
        second.0@.len() == 0,
        second.1.is_none(),
{
}

} // verus!
