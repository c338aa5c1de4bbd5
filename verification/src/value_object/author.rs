//! Bodies of the author requests and responses.

use vstd::prelude::*;
use vstd::std_specs::convert::FromSpecImpl;
use crate::entities::Author;

verus! {

/// An author as a response shows it.
#[derive(Debug)]
pub struct ResAuthor {
    pub id: i32,
    pub firstname: String,
    pub lastname: String,
    pub bio: String,
}

/// A list of authors with its length.
#[derive(Debug)]
pub struct ResAuthorList {
    pub total: usize,
    pub authors: Vec<ResAuthor>,
}

/// The body of a request that creates or updates an author.
#[derive(Debug)]
pub struct ReqAuthor {
    pub firstname: String,
    pub lastname: String,
    pub bio: String,
}

impl From<&Author> for ResAuthor {
    /// The author's id, names and biography, field for field.
    fn from(a: &Author) -> (res: ResAuthor) {
        ResAuthor {
            id: a.id,
            firstname: a.firstname.clone(),
            lastname: a.lastname.clone(),
            bio: a.bio.clone(),
        }
    }
}

impl FromSpecImpl<&Author> for ResAuthor {
    open spec fn obeys_from_spec() -> bool {
        true
    }

    open spec fn from_spec(a: &Author) -> ResAuthor {
        ResAuthor { id: a.id, firstname: a.firstname, lastname: a.lastname, bio: a.bio }
    }
}

} // verus!
