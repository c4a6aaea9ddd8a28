use vstd::prelude::*;

use diesel::connection::SimpleConnection;
use diesel::r2d2::{ConnectionManager, Pool, PoolError, PooledConnection};
use diesel::result::Error as QueryError;
use diesel::result::OptionalExtension;
use diesel::sql_types::{Integer, Text};
use diesel::sqlite::SqliteConnection;
use diesel::RunQueryDsl;

use crate::model::StoreError;

verus! {

#[verifier::external_type_specification]
#[verifier::external_body]
pub struct ExSqliteConnection(SqliteConnection);

#[verifier::external_type_specification]
#[verifier::external_body]
pub struct ExPoolError(PoolError);

#[verifier::external_type_specification]
#[verifier::external_body]
pub struct ExQueryError(QueryError);

/// The bounded pool of SQLite connections that every store operation checks out
/// from. Verus does not take r2d2's `Pool` (its bound is an outside trait), so it
/// is held here out of its sight.
#[verifier::external_body]
pub struct DbPool {
    pool: Pool<ConnectionManager<SqliteConnection>>,
}

/// A connection checked out of a `DbPool`; it goes back to the pool when dropped,
/// on every path.
#[verifier::external_body]
pub struct DbConn {
    conn: PooledConnection<ConnectionManager<SqliteConnection>>,
}

/// Relies on r2d2's `Pool::builder().max_size(n).build(..)` over diesel's
/// `ConnectionManager`: it opens the pool, or reports why it could not.
/// `max_size` panics on zero, hence the `requires`.
#[verifier::external_body]
fn build_pool(database_url: &str, max_size: u32) -> (r: Result<DbPool, PoolError>)
    requires
        max_size > 0,
{
    let manager = ConnectionManager::<SqliteConnection>::new(database_url);
    Pool::builder().max_size(max_size).build(manager).map(|pool| DbPool { pool })
}

/// Relies on r2d2's `Pool::get`: it waits for an idle connection up to the pool's
/// timeout, or reports that none could be had.
#[verifier::external_body]
fn pool_get(pool: &DbPool) -> (r: Result<DbConn, PoolError>) {
    pool.pool.get().map(|conn| DbConn { conn })
}

/// Relies on `Deref` of r2d2's `PooledConnection`: the connection it holds.
#[verifier::external_body]
pub(crate) fn connection_of(conn: &DbConn) -> (r: &SqliteConnection) {
    &*conn.conn
}

/// Relies on diesel's `SimpleConnection::batch_execute`: it runs the statements
/// of `sql` in order.
#[verifier::external_body]
fn batch_execute(conn: &SqliteConnection, sql: &str) -> (r: Result<(), QueryError>) {
    conn.batch_execute(sql)
}

/// Inserts a contact; the store assigns its id.
pub const INSERT_CONTACT: &'static str = "INSERT INTO contacts (name, email) VALUES (?, ?)";

/// Reads back a contact by its email; the bound address follows the text.
pub const CONTACT_BY_EMAIL: &'static str = "SELECT id, name, email FROM contacts WHERE email = ";

/// Reads a contact by its id; the bound id follows the text.
pub const CONTACT_BY_ID: &'static str = "SELECT id, name, email FROM contacts WHERE id = ";

/// Every contact, most recently created first.
pub const CONTACTS_NEWEST_FIRST: &'static str = "SELECT id, name, email FROM contacts ORDER BY id DESC";

/// Deletes the contact with an id; the id is bound to the placeholder.
pub const DELETE_CONTACT: &'static str = "DELETE FROM contacts WHERE id = ?";

/// Rows whose ids strictly decrease from first to last.
pub open spec fn rows_newest_first(rows: Seq<(i32, String, String)>) -> bool {
    forall|i: int, j: int| 0 <= i < j < rows.len() ==> #[trigger] rows[i].0 > #[trigger] rows[j].0
}

/// Relies on diesel's `sql_query(..).bind(..).bind(..).execute(..)` with
/// `INSERT_CONTACT`: inserts one row with that name and email, and returns the
/// number of rows affected.
#[verifier::external_body]
pub(crate) fn insert_contact_row(
    conn: &SqliteConnection,
    sql: &str,
    name: &str,
    email: &str,
) -> (r: Result<usize, QueryError>)
    requires
        sql@ == INSERT_CONTACT@,
{
    diesel::sql_query(sql).bind::<Text, _>(name).bind::<Text, _>(email).execute(conn)
}

/// Relies on diesel's `sql_query(..).bind(..).execute(..)` with `DELETE_CONTACT`:
/// deletes by the primary key, so at most one row is affected.
#[verifier::external_body]
pub(crate) fn delete_contact_row(conn: &SqliteConnection, sql: &str, id: i32) -> (r: Result<
    usize,
    QueryError,
>)
    requires
        sql@ == DELETE_CONTACT@,
    ensures
        r matches Ok(n) ==> n <= 1,
{
    diesel::sql_query(sql).bind::<Integer, _>(id).execute(conn)
}

/// Relies on diesel's `sql(..).bind(..).get_result(..)` with `CONTACT_BY_EMAIL`,
/// read as a row of an integer and two texts: the first row whose email equals
/// `email`.
#[verifier::external_body]
pub(crate) fn contact_row_by_email(conn: &SqliteConnection, sql: &str, email: &str) -> (r: Result<
    (i32, String, String),
    QueryError,
>)
    requires
        sql@ == CONTACT_BY_EMAIL@,
    ensures
        r matches Ok(row) ==> row.2@ == email@,
{
    diesel::dsl::sql::<(Integer, Text, Text)>(sql).bind::<Text, _>(email).get_result(conn)
}

/// Relies on diesel's `sql(..).bind(..).get_result(..).optional()` with
/// `CONTACT_BY_ID`: the row whose primary key is `id`, or `None` where there is
/// none.
#[verifier::external_body]
pub(crate) fn contact_row_by_id(conn: &SqliteConnection, sql: &str, id: i32) -> (r: Result<
    Option<(i32, String, String)>,
    QueryError,
>)
    requires
        sql@ == CONTACT_BY_ID@,
    ensures
        r matches Ok(Some(row)) ==> row.0 == id,
{
    diesel::dsl::sql::<(Integer, Text, Text)>(sql).bind::<Integer, _>(id).get_result(conn).optional()
}

/// Relies on diesel's `sql(..).load(..)` with `CONTACTS_NEWEST_FIRST`: every row,
/// ordered by the primary key from the highest down, so ids strictly decrease.
#[verifier::external_body]
pub(crate) fn contact_rows_newest_first(conn: &SqliteConnection, sql: &str) -> (r: Result<
    Vec<(i32, String, String)>,
    QueryError,
>)
    requires
        sql@ == CONTACTS_NEWEST_FIRST@,
    ensures
        r matches Ok(rows) ==> rows_newest_first(rows@),
{
    diesel::dsl::sql::<(Integer, Text, Text)>(sql).load(conn)
}

/// The table of contacts, created where it does not exist yet.
pub const CONTACTS_SCHEMA: &'static str = "CREATE TABLE IF NOT EXISTS contacts (id INTEGER PRIMARY KEY AUTOINCREMENT NOT NULL, name TEXT NOT NULL, email TEXT NOT NULL);";

/// Any failure to hand out a connection is the pool being unavailable.
pub fn pool_error(e: PoolError) -> (r: StoreError)
    ensures
        r == StoreError::PoolUnavailable,
{
    StoreError::PoolUnavailable
}

/// Any failure of a statement is a database failure.
pub fn query_error(e: QueryError) -> (r: StoreError)
    ensures
        r == StoreError::Database,
{
    StoreError::Database
}

/// Opens a pool of at most `max_size` connections to the database at `database_url`.
/// Fails only with `PoolUnavailable`.
pub fn create_pool(database_url: &str, max_size: u32) -> (r: Result<DbPool, StoreError>)
    requires
        max_size > 0,
    ensures
        r is Err ==> r == Err::<DbPool, StoreError>(StoreError::PoolUnavailable),
{
    match build_pool(database_url, max_size) {
        Ok(pool) => Ok(pool),
        Err(e) => Err(pool_error(e)),
    }
}

/// Checks a connection out of the pool, for the span of one operation.
/// Fails only with `PoolUnavailable`; nothing is retried.
pub fn checkout(pool: &DbPool) -> (r: Result<DbConn, StoreError>)
    ensures
        r is Err ==> r == Err::<DbConn, StoreError>(StoreError::PoolUnavailable),
{
    match pool_get(pool) {
        Ok(conn) => Ok(conn),
        Err(e) => Err(pool_error(e)),
    }
}

impl DbConn {
    /// The connection this handle holds, for as long as it is checked out.
    pub fn connection(&self) -> &SqliteConnection {
        connection_of(self)
    }
}

/// Creates the contacts table on a connection of the pool, where it is missing.
pub fn prepare_schema(pool: &DbPool) -> (r: Result<(), StoreError>)
    ensures
        r is Err ==> r == Err::<(), StoreError>(StoreError::PoolUnavailable) || r == Err::<(), StoreError>(
            StoreError::Database,
        ),
{
    let conn = match checkout(pool) {
        Ok(conn) => conn,
        Err(e) => return Err(e),
    };
    match batch_execute(connection_of(&conn), CONTACTS_SCHEMA) {
        Ok(()) => Ok(()),
        Err(e) => Err(query_error(e)),
    }
}

} // verus!
