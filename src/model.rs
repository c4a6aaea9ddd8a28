use vstd::prelude::*;

use diesel::sqlite::SqliteConnection;

use crate::store::{
    contact_row_by_email, contact_row_by_id, contact_rows_newest_first, delete_contact_row,
    insert_contact_row, query_error, CONTACTS_NEWEST_FIRST, CONTACT_BY_EMAIL,
    CONTACT_BY_ID, DELETE_CONTACT, INSERT_CONTACT,
};

verus! {

/// A stored contact: the id is assigned by the store when the row is inserted.
#[derive(Debug, Clone, PartialEq, Eq)]
pub struct Contact {
    pub id: i32,
    pub name: String,
    pub email: String,
}

/// A contact as submitted for creation, before the store has given it an id.
#[derive(Debug, Clone)]
pub struct NewContact {
    pub name: String,
    pub email: String,
}

/// Why an operation on the contact store did not complete.
#[derive(PartialEq, Eq, Structural, Clone, Copy, Debug)]
pub enum StoreError {
    /// No connection could be checked out of the pool.
    PoolUnavailable,
    /// The database refused or failed the statement.
    Database,
}

impl NewContact {
    pub fn new(name: &str, email: &str) -> (r: NewContact)
        ensures
            r.name@ == name@,
            r.email@ == email@,
    {
        NewContact { name: name.to_owned(), email: email.to_owned() }
    }
}

impl Contact {
    /// Builds a contact from the columns of a row, in table order.
    pub fn from_row(row: (i32, String, String)) -> (r: Contact)
        ensures
            r.id == row.0,
            r.name@ == row.1@,
            r.email@ == row.2@,
    {
        let (id, name, email) = row;
        Contact { id, name, email }
    }
}

/// Contacts whose ids strictly decrease from first to last: most recent first.
pub open spec fn newest_first(cs: Seq<Contact>) -> bool {
    forall|i: int, j: int| 0 <= i < j < cs.len() ==> #[trigger] cs[i].id > #[trigger] cs[j].id
}

/// Builds each contact of `rows` with `Contact::from_row`, keeping their order.
pub fn contacts_from_rows(rows: &Vec<(i32, String, String)>) -> (r: Vec<Contact>)
    ensures
        r@.len() == rows@.len(),
        forall|i: int|
            0 <= i < rows@.len() ==> {
                &&& #[trigger] r@[i].id == rows@[i].0
                &&& r@[i].name@ == rows@[i].1@
                &&& r@[i].email@ == rows@[i].2@
            },
{
    let mut out: Vec<Contact> = Vec::new();
    let mut i: usize = 0;
    while i < rows.len()
        invariant
            i <= rows@.len(),
            out@.len() == i,
            forall|j: int|
                0 <= j < i ==> {
                    &&& #[trigger] out@[j].id == rows@[j].0
                    &&& out@[j].name@ == rows@[j].1@
                    &&& out@[j].email@ == rows@[j].2@
                },
        decreases rows@.len() - i,
    {
        let row = &rows[i];
        out.push(Contact { id: row.0, name: row.1.clone(), email: row.2.clone() });
        i = i + 1;
    }
    out
}

/// The second step of a creation: given how the insert went, reads the row back
/// by `email`. A failed insert is handed on as it is, and nothing is read.
pub fn read_back_created(
    inserted: Result<usize, StoreError>,
    email: &str,
    conn: &SqliteConnection,
) -> (r: Result<Contact, StoreError>)
    ensures
        inserted matches Err(e) ==> r == Err::<Contact, StoreError>(e),
        inserted is Ok && r is Err ==> r == Err::<Contact, StoreError>(StoreError::Database),
        r matches Ok(c) ==> c.email@ == email@,
{
    match inserted {
        Ok(_) => {},
        Err(e) => return Err(e),
    }
    match contact_row_by_email(conn, CONTACT_BY_EMAIL, email) {
        Ok(row) => Ok(Contact::from_row(row)),
        Err(e) => Err(query_error(e)),
    }
}

impl Contact {
    /// Inserts `contact`, then reads the row back by its email and returns it.
    /// Where two contacts share an email the row read back is whichever the store
    /// yields first: it has the email asked for, but maybe not the name.
    pub fn create(contact: NewContact, conn: &SqliteConnection) -> (r: Result<Contact, StoreError>)
        ensures
            r is Err ==> r == Err::<Contact, StoreError>(StoreError::Database),
            r matches Ok(c) ==> c.email@ == contact.email@,
    {
        let inserted = match insert_contact_row(
            conn,
            INSERT_CONTACT,
            contact.name.as_str(),
            contact.email.as_str(),
        ) {
            Ok(n) => Ok(n),
            Err(e) => Err(query_error(e)),
        };
        read_back_created(inserted, contact.email.as_str(), conn)
    }

    /// The contact with id `id`, or `None` where there is none.
    pub fn get_contact(id: i32, conn: &SqliteConnection) -> (r: Result<Option<Contact>, StoreError>)
        ensures
            r is Err ==> r == Err::<Option<Contact>, StoreError>(StoreError::Database),
            r matches Ok(Some(c)) ==> c.id == id,
    {
        match contact_row_by_id(conn, CONTACT_BY_ID, id) {
            Ok(Some(row)) => Ok(Some(Contact::from_row(row))),
            Ok(None) => Ok(None),
            Err(e) => Err(query_error(e)),
        }
    }

    /// Every contact, ordered by id from the highest down.
    pub fn list(conn: &SqliteConnection) -> (r: Result<Vec<Contact>, StoreError>)
        ensures
            r is Err ==> r == Err::<Vec<Contact>, StoreError>(StoreError::Database),
            r matches Ok(v) ==> newest_first(v@),
    {
        match contact_rows_newest_first(conn, CONTACTS_NEWEST_FIRST) {
            Ok(rows) => {
                let v = contacts_from_rows(&rows);
                assert forall|i: int, j: int| 0 <= i < j < v@.len() implies #[trigger] v@[i].id
                    > #[trigger] v@[j].id by {
                    assert(rows@[i].0 > rows@[j].0);
                }
                Ok(v)
            },
            Err(e) => Err(query_error(e)),
        }
    }

    /// Deletes the contact with id `id`; returns how many rows went: one, or none
    /// where there was no such contact.
    pub fn delete(id: i32, conn: &SqliteConnection) -> (r: Result<usize, StoreError>)
        ensures
            r is Err ==> r == Err::<usize, StoreError>(StoreError::Database),
            r matches Ok(n) ==> n <= 1,
    {
        match delete_contact_row(conn, DELETE_CONTACT, id) {
            Ok(n) => Ok(n),
            Err(e) => Err(query_error(e)),
        }
    }
}

} // verus!
