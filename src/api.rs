use vstd::prelude::*;
use vstd::string::StringExecFns;

use crate::counter::read_count;
use crate::model::{newest_first, Contact, NewContact, StoreError};
use crate::store::{checkout, connection_of};
use crate::State;

verus! {

/// The body of a request that names someone to greet.
pub struct Body {
    pub name: String,
}

/// A greeting, as the greeting endpoints answer it.
pub struct Message {
    pub message: String,
}

/// An error answered to the client: what went wrong and the HTTP status.
pub struct Error {
    pub msg: String,
    pub status: u16,
}

/// The number of requests counted so far.
pub struct Counter {
    pub count: i64,
}

/// What a handler answers: the HTTP status follows from the variant.
pub enum Reply {
    /// 201, with the contact just stored.
    Created(Contact),
    /// 200, with the contact asked for.
    Found(Contact),
    /// 200, with every contact, most recent first.
    Listed(Vec<Contact>),
    /// 200, with the request count.
    Count(Counter),
    /// 204, with no body.
    NoContent,
    /// 404, with no body.
    NotFound,
    /// The error's own status, with the error as body.
    Failed(Error),
}

/// The HTTP status of a reply.
pub open spec fn status_of(r: Reply) -> u16 {
    match r {
        Reply::Created(_) => 201,
        Reply::Found(_) => 200,
        Reply::Listed(_) => 200,
        Reply::Count(_) => 200,
        Reply::NoContent => 204,
        Reply::NotFound => 404,
        Reply::Failed(e) => e.status,
    }
}

/// A store failure answered as an internal error: status 500, with a message
/// that names the kind of failure and nothing more.
pub open spec fn is_store_failure(r: Reply) -> bool {
    r is Failed && r->Failed_0.status == 500
}

impl Reply {
    /// The HTTP status of this reply.
    pub fn status(&self) -> (r: u16)
        ensures
            r == status_of(*self),
    {
        match self {
            Reply::Created(_) => 201,
            Reply::Found(_) => 200,
            Reply::Listed(_) => 200,
            Reply::Count(_) => 200,
            Reply::NoContent => 204,
            Reply::NotFound => 404,
            Reply::Failed(e) => e.status,
        }
    }
}

/// The text of the root endpoint.
pub fn index() -> (r: String)
    ensures
        r@ == "Hello RustLab"@,
{
    "Hello RustLab".to_owned()
}

/// "Hello " followed by `name`.
pub fn param(name: &str) -> (r: String)
    ensures
        r@ == "Hello "@ + name@,
{
    let mut r = String::from_str("Hello ");
    r.append(name);
    r
}

/// The greeting of `name`, as a message.
pub fn param_json(name: &str) -> (r: Message)
    ensures
        r.message@ == "Hello "@ + name@,
{
    Message { message: param(name) }
}

/// The greeting of the name that the body carries.
pub fn json_body(payload: Body) -> (r: Message)
    ensures
        r.message@ == "Hello "@ + payload.name@,
{
    Message { message: param(payload.name.as_str()) }
}

/// The error that the error endpoint always answers: "some error", status 400.
pub fn async_error() -> (r: Error)
    ensures
        r.msg@ == "some error"@,
        r.status == 400,
{
    Error { msg: "some error".to_owned(), status: 400 }
}

/// The error answered for a failed store operation.
pub fn store_failure(e: StoreError) -> (r: Reply)
    ensures
        is_store_failure(r),
{
    let msg = match e {
        StoreError::PoolUnavailable => "no database connection available",
        StoreError::Database => "database error",
    };
    Reply::Failed(Error { msg: msg.to_owned(), status: 500 })
}

/// The reply to a creation: the stored contact, or a store failure.
pub fn created_reply(res: Result<Contact, StoreError>) -> (r: Reply)
    ensures
        res matches Ok(c) ==> r == Reply::Created(c),
        res is Err ==> is_store_failure(r),
{
    match res {
        Ok(c) => Reply::Created(c),
        Err(e) => store_failure(e),
    }
}

/// The reply to a lookup: the contact, 404 where there is none, or a store
/// failure.
pub fn found_reply(res: Result<Option<Contact>, StoreError>) -> (r: Reply)
    ensures
        res matches Ok(Some(c)) ==> r == Reply::Found(c),
        res matches Ok(None) ==> r == Reply::NotFound,
        res is Err ==> is_store_failure(r),
{
    match res {
        Ok(Some(c)) => Reply::Found(c),
        Ok(None) => Reply::NotFound,
        Err(e) => store_failure(e),
    }
}

/// The reply to a listing: the contacts as the store gave them, or a store
/// failure.
pub fn listed_reply(res: Result<Vec<Contact>, StoreError>) -> (r: Reply)
    ensures
        res matches Ok(cs) ==> r == Reply::Listed(cs),
        res is Err ==> is_store_failure(r),
{
    match res {
        Ok(cs) => Reply::Listed(cs),
        Err(e) => store_failure(e),
    }
}

/// The reply to a deletion: 204 whether a row went or none did, or a store
/// failure.
pub fn deleted_reply(res: Result<usize, StoreError>) -> (r: Reply)
    ensures
        res is Ok ==> r == Reply::NoContent,
        res is Err ==> is_store_failure(r),
{
    match res {
        Ok(_) => Reply::NoContent,
        Err(e) => store_failure(e),
    }
}

/// The reply to work handed to the blocking pool: what the work answered, or
/// an internal error (500) where the pool could not run it to the end.
pub fn offloaded_reply(outcome: Option<Reply>) -> (r: Reply)
    ensures
        outcome matches Some(x) ==> r == x,
        outcome is None ==> r is Failed && r->Failed_0.status == 500,
{
    match outcome {
        Some(x) => x,
        None => Reply::Failed(Error { msg: "the blocking work did not complete".to_owned(), status: 500 }),
    }
}

/// Stores `contact` on a connection of the pool: 201 with the stored contact,
/// or 500 where the pool or the database fails.
pub fn new_contact(contact: NewContact, state: &State) -> (r: Reply)
    ensures
        r is Created || is_store_failure(r),
        r matches Reply::Created(c) ==> c.email@ == contact.email@,
{
    let res = match checkout(&state.db) {
        Ok(conn) => Contact::create(contact, connection_of(&conn)),
        Err(e) => Err(e),
    };
    created_reply(res)
}

/// Looks up the contact with id `id`: 200 with it, 404 where there is none, or
/// 500 where the pool or the database fails.
pub fn get_contact(id: i32, state: &State) -> (r: Reply)
    ensures
        r is Found || r is NotFound || is_store_failure(r),
        r matches Reply::Found(c) ==> c.id == id,
{
    let res = match checkout(&state.db) {
        Ok(conn) => Contact::get_contact(id, connection_of(&conn)),
        Err(e) => Err(e),
    };
    found_reply(res)
}

/// Every contact, most recent first: 200 with them, or 500 where the pool or
/// the database fails.
pub fn list_contacts(state: &State) -> (r: Reply)
    ensures
        r is Listed || is_store_failure(r),
        r matches Reply::Listed(cs) ==> newest_first(cs@),
{
    let res = match checkout(&state.db) {
        Ok(conn) => Contact::list(connection_of(&conn)),
        Err(e) => Err(e),
    };
    listed_reply(res)
}

/// Deletes the contact with id `id`: 204 whether or not it existed, or 500
/// where the pool or the database fails.
pub fn delete_contact(id: i32, state: &State) -> (r: Reply)
    ensures
        r is NoContent || is_store_failure(r),
{
    let res = match checkout(&state.db) {
        Ok(conn) => Contact::delete(id, connection_of(&conn)),
        Err(e) => Err(e),
    };
    deleted_reply(res)
}

/// The count of requests so far, answered with 200.
pub fn get_requests(state: &State) -> (r: Reply)
    ensures
        r is Count,
{
    Reply::Count(Counter { count: read_count(&state.counter) })
}

} // verus!
