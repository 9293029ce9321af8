//! The database lesson: books kept in PostgreSQL. The queries run in the
//! database; this module holds what the handlers decide around them.
use vstd::prelude::*;
use crate::ids::fresh_uuid;

verus! {

/// A row of the `books` table.
#[derive(Debug, Clone, PartialEq, Eq)]
pub struct Book {
    pub id: u128,
    pub title: String,
    pub author: String,
    pub is_available: bool,
}

/// The body of a request that creates a book.
#[derive(Debug, Clone, PartialEq, Eq)]
pub struct CreateBook {
    pub title: String,
    pub author: String,
}

/// The errors of the lesson: a missing row, or a failed query with its text.
#[derive(Debug, Clone, PartialEq, Eq)]
pub enum DbError {
    NotFound,
    Sqlx(String),
}

impl DbError {
    /// The HTTP status that answers the error.
    pub open spec fn spec_status(&self) -> u16 {
        match self {
            DbError::NotFound => 404,
            DbError::Sqlx(_) => 500,
        }
    }

    /// The text of the answer to the error.
    pub open spec fn spec_body(&self) -> Seq<char> {
        match self {
            DbError::NotFound => "Book not fount"@,
            DbError::Sqlx(_) => "Database error"@,
        }
    }

    /// The answer to the error: its status and a fixed text.
    pub fn into_response(self) -> (r: (u16, String))
        ensures
            r.0 == self.spec_status(),
            r.1@ == self.spec_body(),
    {
        match self {
            DbError::NotFound => (404, String::from_str("Book not fount")),
            DbError::Sqlx(_) => (500, String::from_str("Database error")),
        }
    }
}

/// The row a creation inserts: a new random id, the title and the author as
/// they were sent, and the book available.
pub fn new_book_row(book: CreateBook) -> (r: Book)
    ensures
        r.title == book.title,
        r.author == book.author,
        r.is_available,
        (r.id >> 76u128) & 0xf == 4,
        (r.id >> 62u128) & 0x3 == 2,
{
    Book { id: fresh_uuid(), title: book.title, author: book.author, is_available: true }
}

/// The answer to the listing of all books: the rows, or the error of the query.
pub fn list_books(fetched: Result<Vec<Book>, String>) -> (r: Result<Vec<Book>, DbError>)
    ensures
        fetched matches Ok(v) ==> r == Ok::<Vec<Book>, DbError>(v),
        fetched matches Err(e) ==> r == Err::<Vec<Book>, DbError>(DbError::Sqlx(e)),
{
    match fetched {
        Ok(v) => Ok(v),
        Err(e) => Err(DbError::Sqlx(e)),
    }
}

/// The answer to the creation of a book: 201 and the row the database returned.
pub fn create_book(inserted: Result<Book, String>) -> (r: Result<(u16, Book), DbError>)
    ensures
        inserted matches Ok(b) ==> r == Ok::<(u16, Book), DbError>((201, b)),
        inserted matches Err(e) ==> r == Err::<(u16, Book), DbError>(DbError::Sqlx(e)),
{
    match inserted {
        Ok(b) => Ok((201, b)),
        Err(e) => Err(DbError::Sqlx(e)),
    }
}

/// The answer to a query for one row (a read or an update by id): the row,
/// or `NotFound` when there is none.
pub fn found_row(fetched: Result<Option<Book>, String>) -> (r: Result<Book, DbError>)
    ensures
        fetched matches Ok(Some(b)) ==> r == Ok::<Book, DbError>(b),
        fetched == Ok::<Option<Book>, String>(None) ==> r == Err::<Book, DbError>(
            DbError::NotFound,
        ),
        fetched matches Err(e) ==> r == Err::<Book, DbError>(DbError::Sqlx(e)),
{
    match fetched {
        Ok(Some(b)) => Ok(b),
        Ok(None) => Err(DbError::NotFound),
        Err(e) => Err(DbError::Sqlx(e)),
    }
}

/// The answer to a deletion: 204 when a row went, `NotFound` when none did.
pub fn delete_outcome(deleted: Result<u64, String>) -> (r: Result<u16, DbError>)
    ensures
        deleted == Ok::<u64, String>(0) ==> r == Err::<u16, DbError>(DbError::NotFound),
        deleted matches Ok(n) && n > 0 ==> r == Ok::<u16, DbError>(204),
        deleted matches Err(e) ==> r == Err::<u16, DbError>(DbError::Sqlx(e)),
{
    match deleted {
        Ok(n) => {
            if n == 0 {
                Err(DbError::NotFound)
            } else {
                Ok(204)
            }
        },
        Err(e) => Err(DbError::Sqlx(e)),
    }
}

} // verus!
