//! The decisions of the book handlers. A handler asks the catalogue's store
//! for records and hands what came back to one of these functions, which
//! gives the response or the record to write next.

use vstd::prelude::*;
use vstd::std_specs::convert::FromSpec;
use crate::authors::{book_list, failure, shows_books};
use crate::entities::Book;
use crate::http::{answer, ErrorKind, ErrorResponse, ErrorView, Response, Status, SuccessResponse};
use crate::jwt_auth::{as_signed, to_signed, AuthenticatedUser};
use crate::store::StoreFailure;
use crate::value_object::book::{ReqBook, ResBook, ResBookList};

verus! {

/// A book that is to be stored: everything but the id.
#[derive(Debug)]
pub struct NewBook {
    pub user_id: i32,
    pub author_id: i32,
    pub title: String,
    pub year: String,
    pub cover: String,
}

/// A book as an update writes it, with the time of the update in seconds
/// since the Unix epoch.
#[derive(Debug)]
pub struct BookChange {
    pub book: Book,
    pub updated_at: u64,
}

/// The response to a listing of all books: the books in the order the store
/// gave them (latest update first) with their number, or an internal failure
/// where the store failed.
pub fn index_listed(listed: Result<Vec<Book>, StoreFailure>) -> (res: Response<ResBookList>)
    ensures
        match listed {
            Ok(books) => res matches Ok(success) && success.status == Status::Success
                && success.body.total == books.len() && shows_books(success.body.books@, books@),
            Err(_) => res matches Err(e) && e@ == failure(
                ErrorKind::InternalFailure,
                "Internal Error"@,
            ),
        },
{
    match listed {
        Ok(books) => Ok(SuccessResponse { status: Status::Success, body: book_list(&books) }),
        Err(_) => Err(ErrorResponse::new(ErrorKind::InternalFailure, "Internal Error")),
    }
}

/// The response to a lookup of one book.
pub fn show_found(found: Result<Option<Book>, StoreFailure>) -> (res: Response<ResBook>)
    ensures
        match found {
            Ok(Some(book)) => res matches Ok(success) && success.status == Status::Success
                && success.body == ResBook::from_spec(&book),
            Ok(None) => res matches Err(e) && e@ == failure(
                ErrorKind::NotFound,
                "no book found with the specified ID"@,
            ),
            Err(_) => res matches Err(e) && e@ == failure(
                ErrorKind::InternalFailure,
                "Internal Error please try again"@,
            ),
        },
{
    match found {
        Ok(Some(book)) => Ok(SuccessResponse { status: Status::Success, body: ResBook::from(&book) }),
        Ok(None) => Err(ErrorResponse::new(ErrorKind::NotFound, "no book found with the specified ID")),
        Err(_) => Err(
            ErrorResponse::new(ErrorKind::InternalFailure, "Internal Error please try again"),
        ),
    }
}

/// The book that a creation stores: the request's fields, stamped with the
/// id of the user who makes the request.
pub fn create_draft(user: AuthenticatedUser, req_book: &ReqBook) -> (draft: NewBook)
    ensures
        draft.user_id == as_signed(user.id as int),
        draft.author_id == req_book.author_id,
        draft.title@ == req_book.title@,
        draft.year@ == req_book.year@,
        draft.cover@ == req_book.cover@,
{
    NewBook {
        user_id: to_signed(user.id),
        author_id: req_book.author_id,
        title: req_book.title.clone(),
        year: req_book.year.clone(),
        cover: req_book.cover.clone(),
    }
}

/// The response to a creation, for what the store made of the insert.
pub fn create_saved(saved: Result<Book, StoreFailure>) -> (res: Response<ResBook>)
    ensures
        match saved {
            Ok(book) => res matches Ok(success) && success.status == Status::Created
                && success.body == ResBook::from_spec(&book),
            Err(_) => res matches Err(e) && e@ == failure(
                ErrorKind::InternalFailure,
                "Failed to create book"@,
            ),
        },
{
    match saved {
        Ok(book) => Ok(SuccessResponse { status: Status::Created, body: ResBook::from(&book) }),
        Err(_) => Err(ErrorResponse::new(ErrorKind::InternalFailure, "Failed to create book")),
    }
}

/// The first half of an update: for the book that the store found, the
/// record to write (id and creator kept, the other fields from the request)
/// and the time `now` as the time of the update, or the failure to answer
/// with.
pub fn update_found(found: Result<Option<Book>, StoreFailure>, req_book: &ReqBook, now: u64) -> (res:
    Result<BookChange, ErrorResponse>)
    ensures
        match found {
            Ok(Some(book)) => res matches Ok(change) && change.updated_at == now && change.book.id
                == book.id && change.book.user_id == book.user_id && change.book.author_id
                == req_book.author_id && change.book.title@ == req_book.title@
                && change.book.year@ == req_book.year@ && change.book.cover@ == req_book.cover@,
            Ok(None) => res matches Err(e) && e@ == failure(ErrorKind::NotFound, "Book not found"@),
            Err(_) => res matches Err(e) && e@ == failure(
                ErrorKind::InternalFailure,
                "Database error"@,
            ),
        },
{
    match found {
        Ok(Some(book)) => Ok(
            BookChange {
                book: Book {
                    id: book.id,
                    user_id: book.user_id,
                    author_id: req_book.author_id,
                    title: req_book.title.clone(),
                    year: req_book.year.clone(),
                    cover: req_book.cover.clone(),
                },
                updated_at: now,
            },
        ),
        Ok(None) => Err(ErrorResponse::new(ErrorKind::NotFound, "Book not found")),
        Err(_) => Err(ErrorResponse::new(ErrorKind::InternalFailure, "Database error")),
    }
}

/// The second half of an update: the response for what the store made of
/// the write.
pub fn update_saved(saved: Result<Book, StoreFailure>) -> (res: Response<ResBook>)
    ensures
        match saved {
            Ok(book) => res matches Ok(success) && success.status == Status::Success
                && success.body == ResBook::from_spec(&book),
            Err(_) => res matches Err(e) && e@ == failure(
                ErrorKind::InternalFailure,
                "Failed to update book"@,
            ),
        },
{
    match saved {
        Ok(book) => Ok(SuccessResponse { status: Status::Success, body: ResBook::from(&book) }),
        Err(_) => Err(ErrorResponse::new(ErrorKind::InternalFailure, "Failed to update book")),
    }
}

/// The first half of a deletion: the book to delete, as the store found it,
/// or the failure to answer with.
pub fn delete_found(found: Result<Option<Book>, StoreFailure>) -> (res: Result<Book, ErrorResponse>)
    ensures
        match found {
            Ok(Some(book)) => res == Ok::<Book, ErrorResponse>(book),
            Ok(None) => res matches Err(e) && e@ == failure(ErrorKind::NotFound, "Book not found"@),
            Err(_) => res matches Err(e) && e@ == failure(
                ErrorKind::InternalFailure,
                "Database error"@,
            ),
        },
{
    match found {
        Ok(Some(book)) => Ok(book),
        Ok(None) => Err(ErrorResponse::new(ErrorKind::NotFound, "Book not found")),
        Err(_) => Err(ErrorResponse::new(ErrorKind::InternalFailure, "Database error")),
    }
}

/// The second half of a deletion: the response for the number of rows that
/// the store deleted. Exactly one row is a success.
pub fn delete_done(done: Result<u64, StoreFailure>) -> (res: Response<String>)
    ensures
        match done {
            Ok(rows) => if rows == 1 {
                answer(res) == Ok::<(Status, Seq<char>), ErrorView>(
                    (Status::Success, "Book successfully deleted"@),
                )
            } else {
                res matches Err(e) && e@ == failure(
                    ErrorKind::InternalFailure,
                    "Failed to delete book"@,
                )
            },
            Err(_) => res matches Err(e) && e@ == failure(
                ErrorKind::InternalFailure,
                "Error occurred while deleting book"@,
            ),
        },
{
    match done {
        Ok(rows) => {
            if rows == 1 {
                Ok(
                    SuccessResponse {
                        status: Status::Success,
                        body: "Book successfully deleted".to_string(),
                    },
                )
            } else {
                Err(ErrorResponse::new(ErrorKind::InternalFailure, "Failed to delete book"))
            }
        },
        Err(_) => Err(
            ErrorResponse::new(ErrorKind::InternalFailure, "Error occurred while deleting book"),
        ),
    }
}

} // verus!
