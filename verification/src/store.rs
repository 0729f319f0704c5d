use vstd::prelude::*;
use core::marker::PhantomData;
use r2d2_sqlite::SqliteConnectionManager;
use r2d2_sqlite::rusqlite::OptionalExtension;

verus! {

/// r2d2_sqlite's SQLite connection manager, used opaquely as the pool's
/// connection factory.
#[verifier::external_type_specification]
#[verifier::external_body]
pub struct ExSqliteConnectionManager(SqliteConnectionManager);

/// The credential table reachable through a store's pool handle: each
/// stored credential string maps to its stored access byte.
pub uninterp spec fn store_contents(store: CredentialStore) -> Map<Seq<char>, u8>;

/// The credential table reachable through one checked-out connection.
pub uninterp spec fn connection_contents(db: Database) -> Map<Seq<char>, u8>;

/// Outcome of one credential lookup against the store.
#[derive(Clone, Copy, Debug, PartialEq, Eq, Structural)]
pub enum LookupOutcome {
    Found(u8),
    Missing,
    Unavailable,
}

/// What a lookup returns whenever the store is reachable: the stored
/// access byte of the credential, or a miss.
pub open spec fn spec_lookup(m: Map<Seq<char>, u8>, key: Seq<char>) -> LookupOutcome {
    if m.contains_key(key) {
        LookupOutcome::Found(m[key])
    } else {
        LookupOutcome::Missing
    }
}

/// The durable credential store: rows of (credential, access byte, label)
/// behind a bounded SQLite connection pool. Every access acquires a
/// connection for the span of one call and releases it on every exit
/// path; pool exhaustion surfaces as an unavailable outcome, never as an
/// unbounded wait. The pool handle is held opaquely (Verus cannot declare
/// r2d2's pool type, whose bound is an outside trait); the table it
/// reaches is modeled by `store_contents`.
#[verifier::external_body]
pub struct CredentialStore {
    pool: r2d2::Pool<SqliteConnectionManager>,
}

/// A connection checked out of the store's pool, held opaquely for the
/// span of one request and returned to the pool when dropped. It borrows
/// the store it came from, so the store cannot be written while the
/// connection is held: what a held connection reads stays what the store
/// held when it was checked out.
#[verifier::external_body]
pub struct Database<'a> {
    conn: r2d2::PooledConnection<SqliteConnectionManager>,
    _store: PhantomData<&'a CredentialStore>,
}

/// Relies on r2d2::Pool::builder with max_size, connection_timeout and
/// build, and on rusqlite::Connection::execute, to put a bounded pool in
/// front of the given database and create the credential table in it if
/// it is absent. Returns None when the pool cannot be built or the table
/// cannot be created.
#[verifier::external_body]
fn build_store(manager: SqliteConnectionManager, max_size: u32, timeout_ms: u64) -> (r: Option<
    CredentialStore,
>)
    requires
        max_size >= 1,
        timeout_ms >= 1,
{
    let pool = r2d2::Pool::builder().max_size(max_size).connection_timeout(
        core::time::Duration::from_millis(timeout_ms),
    ).build(manager).ok()?;
    let conn = pool.get().ok()?;
    conn.execute(
        "CREATE TABLE IF NOT EXISTS authorizations (api_key CHAR(36) PRIMARY KEY NOT NULL, access_level SMALLINT NOT NULL, label VARCHAR(40) NOT NULL)",
        (),
    ).ok()?;
    Some(CredentialStore { pool })
}

impl CredentialStore {
    /// The credential table this store reaches.
    pub open spec fn contents(self) -> Map<Seq<char>, u8> {
        store_contents(self)
    }

    /// Open the credential store kept in the SQLite database at `path`,
    /// behind a pool of at most `max_size` connections with a bounded
    /// wait of `timeout_ms` milliseconds. The contents model takes this
    /// handle to be the database's only writer: a second handle on the
    /// same path, or an outside process, is beyond what any contract
    /// here can see.
    /// Relies on r2d2_sqlite::SqliteConnectionManager::file for the
    /// connection factory; see `build_store` for the rest.
    #[verifier::external_body]
    pub fn open(path: &str, max_size: u32, timeout_ms: u64) -> (r: Option<CredentialStore>)
        requires
            max_size >= 1,
            timeout_ms >= 1,
    {
        build_store(SqliteConnectionManager::file(path), max_size, timeout_ms)
    }

    /// Open a credential store in a fresh in-memory database shared by
    /// the pool's connections; its credential table starts empty.
    /// Relies on r2d2_sqlite::SqliteConnectionManager::memory, which
    /// names a private shared-cache in-memory database and keeps it alive
    /// for the manager's lifetime; see `build_store` for the rest.
    #[verifier::external_body]
    pub fn open_in_memory(max_size: u32, timeout_ms: u64) -> (r: Option<CredentialStore>)
        requires
            max_size >= 1,
            timeout_ms >= 1,
        ensures
            (match r {
                Some(s) => store_contents(s) =~= Map::<Seq<char>, u8>::empty(),
                None => true,
            }),
    {
        build_store(SqliteConnectionManager::memory(), max_size, timeout_ms)
    }

    /// Check a connection out of the pool for the span of one request;
    /// it reaches the same credential table as the store.
    /// Relies on r2d2::Pool::get: `None` when every pooled connection is
    /// in use past the pool's bounded wait, or when none can be opened.
    #[verifier::external_body]
    pub fn acquire<'a>(&'a self) -> (r: Option<Database<'a>>)
        ensures
            (match r {
                Some(db) => connection_contents(db) == store_contents(*self),
                None => true,
            }),
    {
        match self.pool.get() {
            Ok(conn) => Some(Database { conn, _store: PhantomData }),
            Err(_) => None,
        }
    }

    /// Insert one credential row.
    /// Relies on r2d2::Pool::get and rusqlite::Connection::execute: on
    /// success the row is added, and the PRIMARY KEY constraint on the
    /// credential column guarantees no row held the key before; on any
    /// pool, constraint or write failure nothing is, and the table is
    /// unchanged. So a stored row is write-once: no insert ever
    /// overwrites it.
    #[verifier::external_body]
    pub fn insert_credential(&mut self, key: &str, access_byte: u8, label: &str) -> (ok: bool)
        ensures
            ok ==> !store_contents(*old(self)).contains_key(key@) && store_contents(*final(self))
                == store_contents(*old(self)).insert(key@, access_byte),
            !ok ==> store_contents(*final(self)) == store_contents(*old(self)),
    {
        let conn = match self.pool.get() {
            Ok(c) => c,
            Err(_) => return false,
        };
        conn.execute(
            "INSERT INTO authorizations (api_key, access_level, label) VALUES (?1, ?2, ?3)",
            (key, access_byte, label),
        ).is_ok()
    }
}

impl Database<'_> {
    /// Read the access byte stored under `api_key` through this
    /// connection.
    /// Relies on rusqlite's query_row and optional: when the query
    /// succeeds the result is exactly the stored access byte, or a miss
    /// when no row holds `api_key`; any query failure is reported as
    /// `Unavailable`.
    #[verifier::external_body]
    pub fn query_access_byte(&self, api_key: &str) -> (r: LookupOutcome)
        ensures
            r == LookupOutcome::Unavailable || r == spec_lookup(
                connection_contents(*self),
                api_key@,
            ),
    {
        let row = self.conn.query_row(
            "SELECT access_level FROM authorizations WHERE api_key = ? LIMIT 1",
            (api_key,),
            |row| row.get::<_, u8>(0),
        ).optional();
        match row {
            Ok(Some(byte)) => LookupOutcome::Found(byte),
            Ok(None) => LookupOutcome::Missing,
            Err(_) => LookupOutcome::Unavailable,
        }
    }
}

/// Law: a successful insert is write-once. The inserted credential was
/// not previously stored, so every pre-existing row is still present and
/// unchanged in the new table.
pub proof fn lemma_insert_preserves_rows(m: Map<Seq<char>, u8>, key: Seq<char>, byte: u8)
    requires
        !m.contains_key(key),
    ensures
        forall|k: Seq<char>| #[trigger]
            m.contains_key(k) ==> m.insert(key, byte).contains_key(k) && m.insert(key, byte)[k]
                == m[k],
{
}

} // verus!
