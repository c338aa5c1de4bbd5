//! The decisions of the author handlers. A handler asks the catalogue's
//! store for records and hands what came back to one of these functions,
//! which gives the response or the record to write next.

use vstd::prelude::*;
use vstd::std_specs::convert::FromSpec;
use crate::entities::{Author, Book};
use crate::http::{answer, ErrorKind, ErrorResponse, ErrorView, Response, Status, SuccessResponse};
use crate::store::StoreFailure;
use crate::value_object::author::{ReqAuthor, ResAuthor, ResAuthorList};
use crate::value_object::book::{ResBook, ResBookList};

verus! {

/// An author that is to be stored: everything but the id.
#[derive(Debug)]
pub struct NewAuthor {
    pub firstname: String,
    pub lastname: String,
    pub bio: String,
}

/// The failure of the given kind and message.
pub open spec fn failure(kind: ErrorKind, message: Seq<char>) -> ErrorView {
    ErrorView { kind, message }
}

/// Whether a list shows exactly the given authors, in their order.
pub open spec fn shows_authors(shown: Seq<ResAuthor>, authors: Seq<Author>) -> bool {
    &&& shown.len() == authors.len()
    &&& forall|i: int| 0 <= i < authors.len() ==> #[trigger] shown[i] == ResAuthor::from_spec(&authors[i])
}

/// Whether a list shows exactly the given books, in their order.
pub open spec fn shows_books(shown: Seq<ResBook>, books: Seq<Book>) -> bool {
    &&& shown.len() == books.len()
    &&& forall|i: int| 0 <= i < books.len() ==> #[trigger] shown[i] == ResBook::from_spec(&books[i])
}

/// The authors as a response shows them.
pub fn author_list(authors: &Vec<Author>) -> (list: ResAuthorList)
    ensures
        list.total == authors.len(),
        shows_authors(list.authors@, authors@),
{
    let mut shown: Vec<ResAuthor> = Vec::new();
    let mut i: usize = 0;
    while i < authors.len()
        invariant
            i <= authors.len(),
            shown.len() == i,
            forall|j: int| 0 <= j < i ==> #[trigger] shown[j] == ResAuthor::from_spec(&authors[j]),
        decreases authors.len() - i,
    {
        shown.push(ResAuthor::from(&authors[i]));
        i += 1;
    }
    ResAuthorList { total: shown.len(), authors: shown }
}

/// The books as a response shows them.
pub fn book_list(books: &Vec<Book>) -> (list: ResBookList)
    ensures
        list.total == books.len(),
        shows_books(list.books@, books@),
{
    let mut shown: Vec<ResBook> = Vec::new();
    let mut i: usize = 0;
    while i < books.len()
        invariant
            i <= books.len(),
            shown.len() == i,
            forall|j: int| 0 <= j < i ==> #[trigger] shown[j] == ResBook::from_spec(&books[j]),
        decreases books.len() - i,
    {
        shown.push(ResBook::from(&books[i]));
        i += 1;
    }
    ResBookList { total: shown.len(), books: shown }
}

/// The response to a listing of all authors: the authors in the order the
/// store gave them (latest update first) with their number, or an internal
/// failure where the store failed.
pub fn index_listed(listed: Result<Vec<Author>, StoreFailure>) -> (res: Response<ResAuthorList>)
    ensures
        match listed {
            Ok(authors) => res matches Ok(success) && success.status == Status::Success
                && success.body.total == authors.len() && shows_authors(
                success.body.authors@,
                authors@,
            ),
            Err(_) => res matches Err(e) && e@ == failure(
                ErrorKind::InternalFailure,
                "Internal Error"@,
            ),
        },
{
    match listed {
        Ok(authors) => Ok(SuccessResponse { status: Status::Success, body: author_list(&authors) }),
        Err(_) => Err(ErrorResponse::new(ErrorKind::InternalFailure, "Internal Error")),
    }
}

/// The response to a lookup of one author.
pub fn show_found(found: Result<Option<Author>, StoreFailure>) -> (res: Response<ResAuthor>)
    ensures
        match found {
            Ok(Some(author)) => res matches Ok(success) && success.status == Status::Success
                && success.body == ResAuthor::from_spec(&author),
            Ok(None) => res matches Err(e) && e@ == failure(
                ErrorKind::NotFound,
                "no author found with the specified Id"@,
            ),
            Err(_) => res matches Err(e) && e@ == failure(
                ErrorKind::InternalFailure,
                "Internal Error please try again"@,
            ),
        },
{
    match found {
        Ok(Some(author)) => Ok(
            SuccessResponse { status: Status::Success, body: ResAuthor::from(&author) },
        ),
        Ok(None) => Err(
            ErrorResponse::new(ErrorKind::NotFound, "no author found with the specified Id"),
        ),
        Err(_) => Err(
            ErrorResponse::new(ErrorKind::InternalFailure, "Internal Error please try again"),
        ),
    }
}

/// The author that a creation stores: the request's names and biography.
pub fn create_draft(req_author: &ReqAuthor) -> (draft: NewAuthor)
    ensures
        draft.firstname@ == req_author.firstname@,
        draft.lastname@ == req_author.lastname@,
        draft.bio@ == req_author.bio@,
{
    NewAuthor {
        firstname: req_author.firstname.clone(),
        lastname: req_author.lastname.clone(),
        bio: req_author.bio.clone(),
    }
}

/// The response to a creation, for what the store made of the insert.
pub fn create_saved(saved: Result<Author, StoreFailure>) -> (res: Response<ResAuthor>)
    ensures
        match saved {
            Ok(author) => res matches Ok(success) && success.status == Status::Created
                && success.body == ResAuthor::from_spec(&author),
            Err(_) => res matches Err(e) && e@ == failure(
                ErrorKind::InternalFailure,
                "Failed to create author"@,
            ),
        },
{
    match saved {
        Ok(author) => Ok(SuccessResponse { status: Status::Created, body: ResAuthor::from(&author) }),
        Err(_) => Err(ErrorResponse::new(ErrorKind::InternalFailure, "Failed to create author")),
    }
}

/// The first half of an update: for the author that the store found, the
/// record to write (the id kept, names and biography from the request), or
/// the failure to answer with.
pub fn update_found(found: Result<Option<Author>, StoreFailure>, req_author: &ReqAuthor) -> (res:
    Result<Author, ErrorResponse>)
    ensures
        match found {
            Ok(Some(author)) => res matches Ok(changed) && changed.id == author.id
                && changed.firstname@ == req_author.firstname@ && changed.lastname@
                == req_author.lastname@ && changed.bio@ == req_author.bio@,
            Ok(None) => res matches Err(e) && e@ == failure(
                ErrorKind::NotFound,
                "Author not found"@,
            ),
            Err(_) => res matches Err(e) && e@ == failure(
                ErrorKind::InternalFailure,
                "Database error"@,
            ),
        },
{
    match found {
        Ok(Some(author)) => Ok(
            Author {
                id: author.id,
                firstname: req_author.firstname.clone(),
                lastname: req_author.lastname.clone(),
                bio: req_author.bio.clone(),
            },
        ),
        Ok(None) => Err(ErrorResponse::new(ErrorKind::NotFound, "Author not found")),
        Err(_) => Err(ErrorResponse::new(ErrorKind::InternalFailure, "Database error")),
    }
}

/// The second half of an update: the response for what the store made of
/// the write.
pub fn update_saved(saved: Result<Author, StoreFailure>) -> (res: Response<ResAuthor>)
    ensures
        match saved {
            Ok(author) => res matches Ok(success) && success.status == Status::Success
                && success.body == ResAuthor::from_spec(&author),
            Err(_) => res matches Err(e) && e@ == failure(
                ErrorKind::InternalFailure,
                "Failed to update author"@,
            ),
        },
{
    match saved {
        Ok(author) => Ok(SuccessResponse { status: Status::Success, body: ResAuthor::from(&author) }),
        Err(_) => Err(ErrorResponse::new(ErrorKind::InternalFailure, "Failed to update author")),
    }
}

/// The first half of a deletion: the author to delete, as the store found
/// it, or the failure to answer with.
pub fn delete_found(found: Result<Option<Author>, StoreFailure>) -> (res: Result<
    Author,
    ErrorResponse,
>)
    ensures
        match found {
            Ok(Some(author)) => res == Ok::<Author, ErrorResponse>(author),
            Ok(None) => res matches Err(e) && e@ == failure(
                ErrorKind::NotFound,
                "Author not found with specific id"@,
            ),
            Err(_) => res matches Err(e) && e@ == failure(
                ErrorKind::InternalFailure,
                "Database error"@,
            ),
        },
{
    match found {
        Ok(Some(author)) => Ok(author),
        Ok(None) => Err(ErrorResponse::new(ErrorKind::NotFound, "Author not found with specific id")),
        Err(_) => Err(ErrorResponse::new(ErrorKind::InternalFailure, "Database error")),
    }
}

/// The second half of a deletion: the response for the number of rows that
/// the store deleted. Exactly one row is a success.
pub fn delete_done(done: Result<u64, StoreFailure>) -> (res: Response<String>)
    ensures
        match done {
            Ok(rows) => if rows == 1 {
                answer(res) == Ok::<(Status, Seq<char>), ErrorView>(
                    (Status::Success, "Author successfully deleted"@),
                )
            } else {
                res matches Err(e) && e@ == failure(
                    ErrorKind::InternalFailure,
                    "Failed to delete book"@,
                )
            },
            Err(_) => res matches Err(e) && e@ == failure(
                ErrorKind::InternalFailure,
                "Error occurred while deleting author"@,
            ),
        },
{
    match done {
        Ok(rows) => {
            if rows == 1 {
                Ok(
                    SuccessResponse {
                        status: Status::Success,
                        body: "Author successfully deleted".to_string(),
                    },
                )
            } else {
                Err(ErrorResponse::new(ErrorKind::InternalFailure, "Failed to delete book"))
            }
        },
        Err(_) => Err(
            ErrorResponse::new(ErrorKind::InternalFailure, "Error occurred while deleting author"),
        ),
    }
}

/// The response to a listing of an author's books. The store gives the
/// author with the books, or nothing where the author is not stored: then
/// the answer is `NotFound`. Of several entries the first counts.
pub fn books_listed(listed: Result<Vec<(Author, Vec<Book>)>, StoreFailure>) -> (res: Response<
    ResBookList,
>)
    ensures
        match listed {
            Ok(entries) => if entries.len() == 0 {
                res matches Err(e) && e@ == failure(ErrorKind::NotFound, "Author not found"@)
            } else {
                res matches Ok(success) && success.status == Status::Success
                    && success.body.total == entries[0].1.len() && shows_books(
                    success.body.books@,
                    entries[0].1@,
                )
            },
            Err(_) => res matches Err(e) && e@ == failure(
                ErrorKind::InternalFailure,
                "Failed to fetch books"@,
            ),
        },
{
    match listed {
        Ok(entries) => {
            if entries.len() == 0 {
                Err(ErrorResponse::new(ErrorKind::NotFound, "Author not found"))
            } else {
                Ok(SuccessResponse { status: Status::Success, body: book_list(&entries[0].1) })
            }
        },
        Err(_) => Err(ErrorResponse::new(ErrorKind::InternalFailure, "Failed to fetch books")),
    }
}

} // verus!
