//! The SQLite database behind the store: what its tables hold, and the
//! statements the store runs on them.
use rusqlite::Connection;
use rusqlite::Error as SqliteError;
use rusqlite::OptionalExtension;
use rusqlite_migration::Error as MigrationError;
use vstd::prelude::*;

verus! {

/// The rows of table `entries` behind a connection, by id: blob,
/// created_at, expires_at, pinned, times_pasted, content_kind text.
/// (A database without the table holds no rows.)
pub uninterp spec fn entries_table(conn: Connection) -> Map<
    Seq<u8>,
    (Seq<u8>, i64, Option<i64>, bool, int, Seq<char>),
>;

/// Row 1 of table `vault` behind a connection, if any: its `data` blob and
/// its `created_at` time.
pub uninterp spec fn vault_row(conn: Connection) -> Option<(Seq<u8>, i64)>;

/// A row of table `entries` as SQLite holds it: blob, created_at,
/// expires_at, pinned, times_pasted, content_kind text.
pub type EntryRow = (Seq<u8>, i64, Option<i64>, bool, int, Seq<char>);

/// A row of table `entries` as it is read out, with its id first; the
/// paste count comes as SQLite holds it, before any range check.
pub type RawEntry = ([u8; 16], Vec<u8>, i64, Option<i64>, bool, i64, String);

/// The table row that a row read out stands for.
pub open spec fn raw_row(r: RawEntry) -> EntryRow {
    (r.1@, r.2, r.3, r.4, r.5 as int, r.6@)
}

/// Marks an error as one a call into the database handed back: every
/// wrapper here that runs a statement or opens a connection gives its
/// errors this mark, while the errors the library builds itself for a row
/// it cannot read do not get it. Outside this module nothing else can be
/// shown to carry it, so a contract that speaks of it says where an error
/// came from.
pub closed spec fn from_database(e: SqliteError) -> bool {
    true
}

/// The schema version a connection's database records (`PRAGMA
/// user_version`).
pub uninterp spec fn db_schema_version(conn: Connection) -> int;

/// Whether a connection enforces foreign keys (`PRAGMA foreign_keys`).
pub uninterp spec fn db_foreign_keys(conn: Connection) -> bool;

/// A connection's busy timeout, in milliseconds (`PRAGMA busy_timeout`).
pub uninterp spec fn db_busy_timeout(conn: Connection) -> int;

/// The journal mode in effect on a connection, as SQLite names it
/// (`PRAGMA journal_mode`).
pub uninterp spec fn db_journal_mode(conn: Connection) -> Seq<char>;

/// Whether a connection is in autocommit mode, outside any transaction
/// (`Connection::is_autocommit`).
pub uninterp spec fn db_autocommit(conn: Connection) -> bool;

/// A connection's settings: schema version, foreign keys, busy timeout,
/// journal mode and autocommit mode.
pub open spec fn db_settings(conn: Connection) -> (int, bool, int, Seq<char>, bool) {
    (db_schema_version(conn), db_foreign_keys(conn), db_busy_timeout(conn), db_journal_mode(conn), db_autocommit(conn))
}

/// A text with its ASCII capitals made small, as SQLite reports a journal
/// mode.
pub open spec fn ascii_lowercase(s: Seq<char>) -> Seq<char> {
    s.map_values(|c: char| if 'A' <= c && c <= 'Z' { ((c as u32) + 32) as char } else { c })
}

/// `Connection::open_in_memory`: a fresh database, with no rows, in
/// autocommit mode, whose journal lives in memory.
#[verifier::external_body]
pub(crate) fn open_in_memory() -> (r: Result<Connection, SqliteError>)
    ensures
        r matches Ok(c) ==> entries_table(c).dom() == Set::<Seq<u8>>::empty(),
        r matches Ok(c) ==> vault_row(c) is None,
        r matches Ok(c) ==> db_autocommit(c),
        r matches Ok(c) ==> db_journal_mode(c) == "memory"@,
        r matches Err(e) ==> from_database(e),
{
    Connection::open_in_memory()
}

/// `Connection::pragma_update_and_check(None, "journal_mode", mode, ..)`,
/// handing back the journal mode SQLite reports: the one asked for, or the
/// one in effect before where it cannot be changed (as for a database in
/// memory). Nothing else changes.
#[verifier::external_body]
pub(crate) fn set_journal_mode(conn: &mut Connection, mode: &str) -> (r: Result<String, SqliteError>)
    ensures
        r matches Ok(m) ==> db_journal_mode(*final(conn)) == m@,
        r matches Ok(m) ==> m@ == ascii_lowercase(mode@) || m@ == db_journal_mode(*old(conn)),
        r is Err ==> db_journal_mode(*final(conn)) == db_journal_mode(*old(conn)),
        db_schema_version(*final(conn)) == db_schema_version(*old(conn)),
        db_foreign_keys(*final(conn)) == db_foreign_keys(*old(conn)),
        db_busy_timeout(*final(conn)) == db_busy_timeout(*old(conn)),
        db_autocommit(*final(conn)) == db_autocommit(*old(conn)),
        entries_table(*final(conn)) == entries_table(*old(conn)),
        vault_row(*final(conn)) == vault_row(*old(conn)),
        r matches Err(e) ==> from_database(e),
{
    conn.pragma_update_and_check(None, "journal_mode", mode, |row| row.get::<_, String>(0))
}

/// `Connection::pragma_update(None, "foreign_keys", "ON")`: outside a
/// transaction, foreign keys are enforced from then on (inside one the
/// pragma does nothing). Nothing else changes.
#[verifier::external_body]
pub(crate) fn enable_foreign_keys(conn: &mut Connection) -> (r: Result<(), SqliteError>)
    ensures
        r is Ok && db_autocommit(*old(conn)) ==> db_foreign_keys(*final(conn)),
        !(r is Ok && db_autocommit(*old(conn))) ==> db_foreign_keys(*final(conn)) == db_foreign_keys(*old(conn)),
        db_schema_version(*final(conn)) == db_schema_version(*old(conn)),
        db_busy_timeout(*final(conn)) == db_busy_timeout(*old(conn)),
        db_journal_mode(*final(conn)) == db_journal_mode(*old(conn)),
        db_autocommit(*final(conn)) == db_autocommit(*old(conn)),
        entries_table(*final(conn)) == entries_table(*old(conn)),
        vault_row(*final(conn)) == vault_row(*old(conn)),
        r matches Err(e) ==> from_database(e),
{
    conn.pragma_update(None, "foreign_keys", "ON")
}

/// `Connection::pragma_update(None, "busy_timeout", ms)`: the busy timeout
/// becomes `ms` milliseconds. Nothing else changes.
#[verifier::external_body]
pub(crate) fn set_busy_timeout(conn: &mut Connection, ms: u32) -> (r: Result<(), SqliteError>)
    ensures
        r is Ok ==> db_busy_timeout(*final(conn)) == ms,
        r is Err ==> db_busy_timeout(*final(conn)) == db_busy_timeout(*old(conn)),
        db_schema_version(*final(conn)) == db_schema_version(*old(conn)),
        db_foreign_keys(*final(conn)) == db_foreign_keys(*old(conn)),
        db_journal_mode(*final(conn)) == db_journal_mode(*old(conn)),
        db_autocommit(*final(conn)) == db_autocommit(*old(conn)),
        entries_table(*final(conn)) == entries_table(*old(conn)),
        vault_row(*final(conn)) == vault_row(*old(conn)),
        r matches Err(e) ==> from_database(e),
{
    conn.pragma_update(None, "busy_timeout", ms)
}

/// The table that holds the vault metadata: a single row, id 1.
pub const VAULT_TABLE: &'static str = "CREATE TABLE vault (
    id INTEGER PRIMARY KEY CHECK (id = 1),
    data BLOB NOT NULL,
    created_at INTEGER NOT NULL)";

/// The table that holds the entries: encrypted blob and plaintext attributes.
pub const ENTRIES_TABLE: &'static str = "CREATE TABLE entries (
    id BLOB PRIMARY KEY,
    blob BLOB NOT NULL,
    created_at INTEGER NOT NULL,
    expires_at INTEGER,
    pinned INTEGER NOT NULL DEFAULT 0,
    times_pasted INTEGER NOT NULL DEFAULT 0,
    content_kind TEXT NOT NULL)";

/// The index that purging by expiry uses.
pub const EXPIRY_INDEX: &'static str =
    "CREATE INDEX idx_entries_expires_at ON entries(expires_at) WHERE expires_at IS NOT NULL";

/// How many migrations the schema has: the schema version once they have
/// all run.
pub open spec fn latest_schema_version() -> int {
    3
}

/// `Migrations::to_latest` over the schema (tables `vault` and `entries`,
/// index on `expires_at`): on success the database records the latest
/// schema version, the migrations that were missing having run in one
/// transaction. It only creates what is missing, so no row changes, and
/// the pragmas and autocommit mode stay.
#[verifier::external_body]
pub(crate) fn run_migrations(conn: &mut Connection) -> (r: Result<(), MigrationError>)
    ensures
        r is Ok ==> db_schema_version(*final(conn)) == latest_schema_version(),
        db_foreign_keys(*final(conn)) == db_foreign_keys(*old(conn)),
        db_busy_timeout(*final(conn)) == db_busy_timeout(*old(conn)),
        db_journal_mode(*final(conn)) == db_journal_mode(*old(conn)),
        db_autocommit(*final(conn)) == db_autocommit(*old(conn)),
        entries_table(*final(conn)) == entries_table(*old(conn)),
        vault_row(*final(conn)) == vault_row(*old(conn)),
{
    rusqlite_migration::Migrations::from_slice(
        &[
            rusqlite_migration::M::up(VAULT_TABLE),
            rusqlite_migration::M::up(ENTRIES_TABLE),
            rusqlite_migration::M::up(EXPIRY_INDEX),
        ],
    ).to_latest(conn)
}

/// Splits a migration error: the SQLite error inside (one the database
/// handed back), or the message of any other kind of failure.
#[verifier::external_body]
pub(crate) fn split_migration_error(e: MigrationError) -> (r: Result<SqliteError, String>)
    ensures
        r matches Ok(inner) ==> from_database(inner),
{
    match e {
        MigrationError::RusqliteError { err, .. } => Ok(err),
        other => Err(other.to_string()),
    }
}

/// `INSERT OR REPLACE INTO vault (id, data, created_at) VALUES (1, ?1, ?2)`:
/// row 1 becomes (`data`, `created_at`); a failed statement changes nothing.
#[verifier::external_body]
pub(crate) fn upsert_vault(conn: &mut Connection, data: &[u8], created_at: i64) -> (r: Result<usize, SqliteError>)
    ensures
        r is Ok ==> vault_row(*final(conn)) == Some((data@, created_at)),
        r is Err ==> vault_row(*final(conn)) == vault_row(*old(conn)),
        entries_table(*final(conn)) == entries_table(*old(conn)),
        db_settings(*final(conn)) == db_settings(*old(conn)),
        r matches Err(e) ==> from_database(e),
{
    conn.execute(
        "INSERT or REPLACE INTO vault (id, data, created_at) VALUES (1, ?1, ?2)",
        (data, created_at),
    )
}

/// `SELECT data FROM vault WHERE id = 1`, no row read as `None`.
#[verifier::external_body]
pub(crate) fn select_vault(conn: &Connection) -> (r: Result<Option<Vec<u8>>, SqliteError>)
    ensures
        r matches Ok(v) ==> match v {
            Some(b) => vault_row(*conn) matches Some(row) && row.0 == b@,
            None => vault_row(*conn) is None,
        },
        r matches Err(e) ==> from_database(e),
{
    conn.query_one("SELECT data FROM vault WHERE id = 1", [], |row| row.get::<_, Vec<u8>>(0)).optional()
}

/// `INSERT INTO entries (..) VALUES (..)`: adds the row; the primary key
/// refuses an id that is already there, and a failed statement changes
/// nothing.
#[verifier::external_body]
pub(crate) fn insert_entry(
    conn: &mut Connection,
    id: &[u8; 16],
    blob: &[u8],
    created_at: i64,
    expires_at: Option<i64>,
    pinned: bool,
    times_pasted: u32,
    content_kind: &str,
) -> (r: Result<usize, SqliteError>)
    ensures
        entries_table(*old(conn)).contains_key(id@) ==> r is Err,
        r is Ok ==> entries_table(*final(conn)) == entries_table(*old(conn)).insert(
            id@,
            (blob@, created_at, expires_at, pinned, times_pasted as int, content_kind@),
        ),
        r is Err ==> entries_table(*final(conn)) == entries_table(*old(conn)),
        vault_row(*final(conn)) == vault_row(*old(conn)),
        db_settings(*final(conn)) == db_settings(*old(conn)),
        r matches Err(e) ==> from_database(e),
{
    conn.execute(
        "INSERT INTO entries (id, blob, created_at, expires_at, pinned, times_pasted, content_kind)
            VALUES (?1, ?2, ?3, ?4, ?5, ?6, ?7)",
        (id, blob, created_at, expires_at, pinned, times_pasted, content_kind),
    )
}

/// `SELECT id, blob, created_at, expires_at, pinned, times_pasted,
/// content_kind FROM entries`: every row once, in no stated order; reading
/// fails on an id that is not 16 bytes or a value of another SQL type than
/// its column's.
#[verifier::external_body]
pub(crate) fn select_entries(conn: &Connection) -> (r: Result<Vec<RawEntry>, SqliteError>)
    ensures
        r matches Ok(rows) ==> {
            &&& forall|i: int, j: int|
                0 <= i < j < rows.len() ==> #[trigger] rows[i].0@ != #[trigger] rows[j].0@
            &&& forall|i: int|
                0 <= i < rows.len() ==> {
                    &&& entries_table(*conn).contains_key(#[trigger] rows[i].0@)
                    &&& entries_table(*conn)[rows[i].0@] == raw_row(rows[i])
                }
            &&& forall|k: Seq<u8>|
                #[trigger] entries_table(*conn).contains_key(k) ==> exists|i: int|
                    0 <= i < rows.len() && rows[i].0@ == k
        },
        r matches Err(e) ==> from_database(e),
{
    let mut stmt = conn.prepare(
        "SELECT id, blob, created_at, expires_at, pinned, times_pasted, content_kind FROM entries",
    )?;
    let rows = stmt.query_map([], |row| {
        Ok((row.get(0)?, row.get(1)?, row.get(2)?, row.get(3)?, row.get(4)?, row.get(5)?, row.get(6)?))
    })?;
    rows.collect()
}

/// The id, expiry and pin state of a row of table `entries`.
pub type ExpiryRow = (Vec<u8>, Option<i64>, bool);

/// `SELECT id, expires_at, pinned FROM entries`: each row's id, expiry and
/// pin state, every row at least once, in no stated order.
#[verifier::external_body]
pub(crate) fn select_expiry(conn: &Connection) -> (r: Result<Vec<ExpiryRow>, SqliteError>)
    ensures
        r matches Ok(rows) ==> {
            &&& forall|i: int|
                0 <= i < rows.len() ==> {
                    &&& entries_table(*conn).contains_key(#[trigger] rows[i].0@)
                    &&& entries_table(*conn)[rows[i].0@].2 == rows[i].1
                    &&& entries_table(*conn)[rows[i].0@].3 == rows[i].2
                }
            &&& forall|k: Seq<u8>|
                #[trigger] entries_table(*conn).contains_key(k) ==> exists|i: int|
                    0 <= i < rows.len() && rows[i].0@ == k
        },
        r matches Err(e) ==> from_database(e),
{
    let mut stmt = conn.prepare("SELECT id, expires_at, pinned FROM entries")?;
    let rows = stmt.query_map([], |row| Ok((row.get(0)?, row.get(1)?, row.get(2)?)))?;
    rows.collect()
}

/// An expiry row as plain values: id, expiry and pin state.
pub open spec fn expiry_key(r: ExpiryRow) -> (Seq<u8>, Option<i64>, bool) {
    (r.0@, r.1, r.2)
}

/// The rows held in the connection's temporary table `purge_rows` (none
/// where the table does not exist): id, expiry and pin state.
pub uninterp spec fn pending_rows(conn: Connection) -> Set<(Seq<u8>, Option<i64>, bool)>;

/// The ids of the rows of `table` whose id, expiry and pin state are among
/// `pending`.
pub open spec fn still_pending(
    table: Map<Seq<u8>, EntryRow>,
    pending: Set<(Seq<u8>, Option<i64>, bool)>,
) -> Set<Seq<u8>> {
    table.dom().filter(|k: Seq<u8>| pending.contains((k, table[k].2, table[k].3)))
}

/// `CREATE TEMP TABLE IF NOT EXISTS purge_rows (..)` with an index on its
/// ids, then `DELETE FROM temp.purge_rows`: the temporary table is there
/// and empty; the tables of the database are not touched.
#[verifier::external_body]
pub(crate) fn reset_pending(conn: &mut Connection) -> (r: Result<(), SqliteError>)
    ensures
        r is Ok ==> pending_rows(*final(conn)) == Set::<(Seq<u8>, Option<i64>, bool)>::empty(),
        entries_table(*final(conn)) == entries_table(*old(conn)),
        vault_row(*final(conn)) == vault_row(*old(conn)),
        db_settings(*final(conn)) == db_settings(*old(conn)),
        r matches Err(e) ==> from_database(e),
{
    conn.execute_batch(
        "CREATE TEMP TABLE IF NOT EXISTS purge_rows (id BLOB NOT NULL, expires_at INTEGER, pinned INTEGER NOT NULL);
        CREATE INDEX IF NOT EXISTS temp.purge_rows_by_id ON purge_rows (id);
        DELETE FROM temp.purge_rows;",
    )
}

/// `INSERT INTO temp.purge_rows (id, expires_at, pinned) VALUES (?1, ?2,
/// ?3)`: the row joins the temporary table; the tables of the database are
/// not touched.
#[verifier::external_body]
pub(crate) fn add_pending(conn: &mut Connection, row: &ExpiryRow) -> (r: Result<usize, SqliteError>)
    ensures
        r is Ok ==> pending_rows(*final(conn)) == pending_rows(*old(conn)).insert(expiry_key(*row)),
        entries_table(*final(conn)) == entries_table(*old(conn)),
        vault_row(*final(conn)) == vault_row(*old(conn)),
        db_settings(*final(conn)) == db_settings(*old(conn)),
        r matches Err(e) ==> from_database(e),
{
    conn.execute(
        "INSERT INTO temp.purge_rows (id, expires_at, pinned) VALUES (?1, ?2, ?3)",
        (&row.0, row.1, row.2),
    )
}

/// `DELETE FROM entries WHERE EXISTS (..)` over `temp.purge_rows`: removes
/// the rows whose id, expiry and pin state (compared as the truth value it
/// reads as) the temporary table holds, and counts them; the statement is
/// atomic, so a failed one changes nothing.
#[verifier::external_body]
pub(crate) fn delete_pending(conn: &mut Connection) -> (r: Result<usize, SqliteError>)
    ensures
        r matches Ok(n) ==> n == still_pending(entries_table(*old(conn)), pending_rows(*old(conn))).len(),
        r is Ok ==> entries_table(*final(conn)) == entries_table(*old(conn)).remove_keys(
            still_pending(entries_table(*old(conn)), pending_rows(*old(conn))),
        ),
        r is Err ==> entries_table(*final(conn)) == entries_table(*old(conn)),
        vault_row(*final(conn)) == vault_row(*old(conn)),
        db_settings(*final(conn)) == db_settings(*old(conn)),
        r matches Err(e) ==> from_database(e),
{
    conn.execute(
        "DELETE FROM entries WHERE EXISTS (SELECT 1 FROM temp.purge_rows p
            WHERE p.id = entries.id AND p.expires_at IS entries.expires_at AND (p.pinned <> 0) = (entries.pinned <> 0))",
        [],
    )
}

/// The ids of a list of 16-byte ids.
pub open spec fn byte_id_set(ids: Seq<[u8; 16]>) -> Set<Seq<u8>> {
    Set::new(|k: Seq<u8>| exists|i: int| 0 <= i < ids.len() && ids[i]@ == k)
}

/// `DELETE FROM entries WHERE id IN (?, ..)` with one placeholder per id:
/// removes the rows with those ids and counts them; the statement is
/// atomic, so a failed one changes nothing.
#[verifier::external_body]
pub(crate) fn delete_entries(conn: &mut Connection, ids: &[[u8; 16]]) -> (r: Result<usize, SqliteError>)
    ensures
        r matches Ok(n) ==> n == entries_table(*old(conn)).dom().intersect(byte_id_set(ids@)).len(),
        r is Ok ==> entries_table(*final(conn)) == entries_table(*old(conn)).remove_keys(byte_id_set(ids@)),
        r is Err ==> entries_table(*final(conn)) == entries_table(*old(conn)),
        vault_row(*final(conn)) == vault_row(*old(conn)),
        db_settings(*final(conn)) == db_settings(*old(conn)),
        r matches Err(e) ==> from_database(e),
{
    let placeholders = vec!["?"; ids.len()].join(", ");
    let sql = format!("DELETE FROM entries WHERE id IN ({placeholders})");
    conn.execute(&sql, rusqlite::params_from_iter(ids))
}

/// A row with its pin state replaced.
pub open spec fn with_pin(row: EntryRow, pinned: bool) -> EntryRow {
    (row.0, row.1, row.2, pinned, row.4, row.5)
}

/// A row pasted once more.
pub open spec fn pasted_once_more(row: EntryRow) -> EntryRow {
    (row.0, row.1, row.2, row.3, row.4 + 1, row.5)
}

/// The table after `f` is applied to the row with id `k`, if there is one.
pub open spec fn update_row(
    rows: Map<Seq<u8>, EntryRow>,
    k: Seq<u8>,
    f: spec_fn(EntryRow) -> EntryRow,
) -> Map<Seq<u8>, EntryRow> {
    if rows.contains_key(k) {
        rows.insert(k, f(rows[k]))
    } else {
        rows
    }
}

/// How many rows have id `k`: 1 or 0.
pub open spec fn rows_with_id(rows: Map<Seq<u8>, EntryRow>, k: Seq<u8>) -> usize {
    if rows.contains_key(k) {
        1
    } else {
        0
    }
}

/// `UPDATE entries SET pinned = ?1 WHERE id = ?2`: counts the rows it
/// changed; a failed statement changes nothing.
#[verifier::external_body]
pub(crate) fn update_pin(conn: &mut Connection, id: &[u8; 16], pinned: bool) -> (r: Result<usize, SqliteError>)
    ensures
        r matches Ok(n) ==> n == rows_with_id(entries_table(*old(conn)), id@),
        r is Ok ==> entries_table(*final(conn)) == update_row(
            entries_table(*old(conn)),
            id@,
            |row: EntryRow| with_pin(row, pinned),
        ),
        r is Err ==> entries_table(*final(conn)) == entries_table(*old(conn)),
        vault_row(*final(conn)) == vault_row(*old(conn)),
        db_settings(*final(conn)) == db_settings(*old(conn)),
        r matches Err(e) ==> from_database(e),
{
    conn.execute("UPDATE entries SET pinned = ?1 WHERE id = ?2", (pinned, id))
}

/// `UPDATE entries SET times_pasted = times_pasted + 1 WHERE id = ?1`:
/// counts the rows it changed; a failed statement changes nothing.
#[verifier::external_body]
pub(crate) fn increment_pasted(conn: &mut Connection, id: &[u8; 16]) -> (r: Result<usize, SqliteError>)
    ensures
        r matches Ok(n) ==> n == rows_with_id(entries_table(*old(conn)), id@),
        r is Ok ==> entries_table(*final(conn)) == update_row(
            entries_table(*old(conn)),
            id@,
            |row: EntryRow| pasted_once_more(row),
        ),
        r is Err ==> entries_table(*final(conn)) == entries_table(*old(conn)),
        vault_row(*final(conn)) == vault_row(*old(conn)),
        db_settings(*final(conn)) == db_settings(*old(conn)),
        r matches Err(e) ==> from_database(e),
{
    conn.execute("UPDATE entries SET times_pasted = times_pasted + 1 WHERE id = ?1", [id])
}

/// The error `Row::get` reports for a `content_kind` that names no kind.
#[verifier::external_body]
pub(crate) fn invalid_content_kind_error() -> SqliteError {
    SqliteError::InvalidColumnType(6, "content_kind".to_string(), rusqlite::types::Type::Text)
}

/// The error `Row::get` reports for a `times_pasted` value that is not a
/// `u32`.
#[verifier::external_body]
pub(crate) fn times_out_of_range_error(value: i64) -> SqliteError {
    SqliteError::IntegralValueOutOfRange(5, value)
}


} // verus!
