//! The capability interfaces that the services are written against. Which
//! implementation stands behind a service is chosen once, at startup.

use vstd::prelude::*;
use crate::http::Response;
use crate::jwt_auth::AuthenticatedUser;
use crate::value_object::auth::{ReqSignIn, ReqSignUp, ResMe, ResSignIn};
use crate::value_object::author::{ReqAuthor, ResAuthor, ResAuthorList};
use crate::value_object::book::{ReqBook, ResBook, ResBookList};

verus! {

/// What a service needs of an authentication repository. An implementation
/// may say in `ready`, `signs_up`, `signs_in` and `tells` what its operations
/// need and do; the service promises no more and no less. One that says
/// nothing promises nothing.
pub trait AuthRepository: Sized {
    /// What must hold of a repository between operations.
    open spec fn ready(&self) -> bool {
        true
    }

    /// Whether `sign_up` may take the repository from `pre` to `post` with
    /// this response.
    open spec fn signs_up(pre: Self, data: ReqSignUp, post: Self, res: Response<String>) -> bool {
        true
    }

    /// Whether `sign_in` may take the repository from `pre` to `post` with
    /// this response.
    open spec fn signs_in(pre: Self, data: ReqSignIn, post: Self, res: Response<ResSignIn>) -> bool {
        true
    }

    /// Whether `me` may take the repository from `pre` to `post` with this
    /// response.
    open spec fn tells(pre: Self, user: AuthenticatedUser, post: Self, res: Response<ResMe>) -> bool {
        true
    }

    /// Registers a user.
    fn sign_up(&mut self, register_data: ReqSignUp) -> (res: Response<String>)
        requires
            old(self).ready(),
        ensures
            final(self).ready(),
            Self::signs_up(*old(self), register_data, *final(self), res),
    ;

    /// Exchanges credentials for a token.
    fn sign_in(&mut self, sign_in_data: ReqSignIn) -> (res: Response<ResSignIn>)
        requires
            old(self).ready(),
        ensures
            final(self).ready(),
            Self::signs_in(*old(self), sign_in_data, *final(self), res),
    ;

    /// Gives an authenticated user their own record.
    fn me(&mut self, user: AuthenticatedUser) -> (res: Response<ResMe>)
        requires
            old(self).ready(),
        ensures
            final(self).ready(),
            Self::tells(*old(self), user, *final(self), res),
    ;
}

/// What a service needs of an author repository. An implementation may say
/// in the spec functions what its operations need and do; one that says
/// nothing promises nothing.
pub trait AuthorRepository: Sized {
    /// What must hold of a repository between operations.
    open spec fn ready(&self) -> bool {
        true
    }

    /// Whether `index` may take the repository from `pre` to `post` with this
    /// response.
    open spec fn lists(pre: Self, user: AuthenticatedUser, post: Self, res: Response<ResAuthorList>) -> bool {
        true
    }

    /// Whether `show` may take the repository from `pre` to `post` with this
    /// response.
    open spec fn shows(
        pre: Self,
        user: AuthenticatedUser,
        id: i32,
        post: Self,
        res: Response<ResAuthor>,
    ) -> bool {
        true
    }

    /// Whether `update` may take the repository from `pre` to `post` with
    /// this response.
    open spec fn updates(
        pre: Self,
        user: AuthenticatedUser,
        id: i32,
        req_author: ReqAuthor,
        post: Self,
        res: Response<ResAuthor>,
    ) -> bool {
        true
    }

    /// Whether `delete` may take the repository from `pre` to `post` with
    /// this response.
    open spec fn deletes(pre: Self, user: AuthenticatedUser, id: i32, post: Self, res: Response<String>) -> bool {
        true
    }

    /// Whether `create` may take the repository from `pre` to `post` with
    /// this response.
    open spec fn creates(
        pre: Self,
        user: AuthenticatedUser,
        req_author: ReqAuthor,
        post: Self,
        res: Response<ResAuthor>,
    ) -> bool {
        true
    }

    /// Whether `get_books` may take the repository from `pre` to `post` with
    /// this response.
    open spec fn lists_books(
        pre: Self,
        user: AuthenticatedUser,
        author_id: i32,
        post: Self,
        res: Response<ResBookList>,
    ) -> bool {
        true
    }

    /// All authors.
    fn index(&mut self, user: AuthenticatedUser) -> (res: Response<ResAuthorList>)
        requires
            old(self).ready(),
        ensures
            final(self).ready(),
            Self::lists(*old(self), user, *final(self), res),
    ;

    /// The author with an id.
    fn show(&mut self, user: AuthenticatedUser, id: i32) -> (res: Response<ResAuthor>)
        requires
            old(self).ready(),
        ensures
            final(self).ready(),
            Self::shows(*old(self), user, id, *final(self), res),
    ;

    /// Replaces the names and biography of the author with an id.
    fn update(&mut self, user: AuthenticatedUser, id: i32, req_author: ReqAuthor) -> (res: Response<
        ResAuthor,
    >)
        requires
            old(self).ready(),
        ensures
            final(self).ready(),
            Self::updates(*old(self), user, id, req_author, *final(self), res),
    ;

    /// Deletes the author with an id.
    fn delete(&mut self, user: AuthenticatedUser, id: i32) -> (res: Response<String>)
        requires
            old(self).ready(),
        ensures
            final(self).ready(),
            Self::deletes(*old(self), user, id, *final(self), res),
    ;

    /// Stores a new author.
    fn create(&mut self, user: AuthenticatedUser, req_author: ReqAuthor) -> (res: Response<
        ResAuthor,
    >)
        requires
            old(self).ready(),
        ensures
            final(self).ready(),
            Self::creates(*old(self), user, req_author, *final(self), res),
    ;

    /// The books of the author with an id.
    fn get_books(&mut self, user: AuthenticatedUser, author_id: i32) -> (res: Response<
        ResBookList,
    >)
        requires
            old(self).ready(),
        ensures
            final(self).ready(),
            Self::lists_books(*old(self), user, author_id, *final(self), res),
    ;
}

/// What a service needs of a book repository. An implementation may say in
/// the spec functions what its operations need and do; one that says nothing
/// promises nothing.
pub trait BookRepository: Sized {
    /// What must hold of a repository between operations.
    open spec fn ready(&self) -> bool {
        true
    }

    /// Whether `index` may take the repository from `pre` to `post` with this
    /// response.
    open spec fn lists(pre: Self, user: AuthenticatedUser, post: Self, res: Response<ResBookList>) -> bool {
        true
    }

    /// Whether `show` may take the repository from `pre` to `post` with this
    /// response.
    open spec fn shows(pre: Self, user: AuthenticatedUser, id: i32, post: Self, res: Response<ResBook>) -> bool {
        true
    }

    /// Whether `update` may take the repository from `pre` to `post` with
    /// this response.
    open spec fn updates(
        pre: Self,
        user: AuthenticatedUser,
        id: i32,
        req_book: ReqBook,
        post: Self,
        res: Response<ResBook>,
    ) -> bool {
        true
    }

    /// Whether `delete` may take the repository from `pre` to `post` with
    /// this response.
    open spec fn deletes(pre: Self, user: AuthenticatedUser, id: i32, post: Self, res: Response<String>) -> bool {
        true
    }

    /// Whether `create` may take the repository from `pre` to `post` with
    /// this response.
    open spec fn creates(
        pre: Self,
        user: AuthenticatedUser,
        req_book: ReqBook,
        post: Self,
        res: Response<ResBook>,
    ) -> bool {
        true
    }

    /// All books.
    fn index(&mut self, user: AuthenticatedUser) -> (res: Response<ResBookList>)
        requires
            old(self).ready(),
        ensures
            final(self).ready(),
            Self::lists(*old(self), user, *final(self), res),
    ;

    /// The book with an id.
    fn show(&mut self, user: AuthenticatedUser, id: i32) -> (res: Response<ResBook>)
        requires
            old(self).ready(),
        ensures
            final(self).ready(),
            Self::shows(*old(self), user, id, *final(self), res),
    ;

    /// Replaces the fields of the book with an id.
    fn update(&mut self, user: AuthenticatedUser, id: i32, req_book: ReqBook) -> (res: Response<
        ResBook,
    >)
        requires
            old(self).ready(),
        ensures
            final(self).ready(),
            Self::updates(*old(self), user, id, req_book, *final(self), res),
    ;

    /// Deletes the book with an id.
    fn delete(&mut self, user: AuthenticatedUser, id: i32) -> (res: Response<String>)
        requires
            old(self).ready(),
        ensures
            final(self).ready(),
            Self::deletes(*old(self), user, id, *final(self), res),
    ;

    /// Stores a new book for the user who makes the request.
    fn create(&mut self, user: AuthenticatedUser, req_book: ReqBook) -> (res: Response<ResBook>)
        requires
            old(self).ready(),
        ensures
            final(self).ready(),
            Self::creates(*old(self), user, req_book, *final(self), res),
    ;
}

} // verus!
