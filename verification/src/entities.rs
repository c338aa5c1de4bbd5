//! The records that the stores hold, as plain values.

use vstd::prelude::*;
use crate::text::opt_text;

verus! {

/// A user as stored: the id that the store assigned, the email (unique, in
/// the letter case it was given in), the digest of the password and the
/// optional names.
#[derive(Debug)]
pub struct User {
    pub id: i32,
    pub email: String,
    pub password: String,
    pub firstname: Option<String>,
    pub lastname: Option<String>,
}

/// A `User` as a plain value.
pub struct UserView {
    pub id: int,
    pub email: Seq<char>,
    pub password: Seq<char>,
    pub firstname: Option<Seq<char>>,
    pub lastname: Option<Seq<char>>,
}

impl View for User {
    type V = UserView;

    open spec fn view(&self) -> UserView {
        UserView {
            id: self.id as int,
            email: self.email@,
            password: self.password@,
            firstname: opt_text(self.firstname),
            lastname: opt_text(self.lastname),
        }
    }
}

/// A user that is to be stored: everything but the id.
#[derive(Debug)]
pub struct NewUser {
    pub email: String,
    pub password: String,
    pub firstname: Option<String>,
    pub lastname: Option<String>,
}

/// A `NewUser` as a plain value.
pub struct NewUserView {
    pub email: Seq<char>,
    pub password: Seq<char>,
    pub firstname: Option<Seq<char>>,
    pub lastname: Option<Seq<char>>,
}

impl View for NewUser {
    type V = NewUserView;

    open spec fn view(&self) -> NewUserView {
        NewUserView {
            email: self.email@,
            password: self.password@,
            firstname: opt_text(self.firstname),
            lastname: opt_text(self.lastname),
        }
    }
}

/// An author as stored.
#[derive(Debug)]
pub struct Author {
    pub id: i32,
    pub firstname: String,
    pub lastname: String,
    pub bio: String,
}

/// A book as stored: `user_id` is the user who created it.
#[derive(Debug)]
pub struct Book {
    pub id: i32,
    pub user_id: i32,
    pub author_id: i32,
    pub title: String,
    pub year: String,
    pub cover: String,
}

} // verus!
