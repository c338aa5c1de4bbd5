//! Bodies of the book requests and responses.

use vstd::prelude::*;
use vstd::std_specs::convert::FromSpecImpl;
use crate::entities::Book;

verus! {

/// A book as a response shows it.
#[derive(Debug)]
pub struct ResBook {
    pub id: i32,
    pub author_id: i32,
    pub title: String,
    pub year: String,
    pub cover: String,
}

/// A list of books with its length.
#[derive(Debug)]
pub struct ResBookList {
    pub total: usize,
    pub books: Vec<ResBook>,
}

/// The body of a request that creates or updates a book.
#[derive(Debug)]
pub struct ReqBook {
    pub author_id: i32,
    pub title: String,
    pub year: String,
    pub cover: String,
}

impl From<&Book> for ResBook {
    /// The book's id, author, title, year and cover, field for field; not the
    /// user who created it.
    fn from(b: &Book) -> (res: ResBook) {
        ResBook {
            id: b.id,
            author_id: b.author_id,
            title: b.title.clone(),
            year: b.year.clone(),
            cover: b.cover.clone(),
        }
    }
}

impl FromSpecImpl<&Book> for ResBook {
    open spec fn obeys_from_spec() -> bool {
        true
    }

    open spec fn from_spec(b: &Book) -> ResBook {
        ResBook { id: b.id, author_id: b.author_id, title: b.title, year: b.year, cover: b.cover }
    }
}

} // verus!
