//! The services: one thin layer per resource between the handlers and the
//! repository chosen at startup. A service adds nothing of its own; what a
//! call does is what the repository says it does.

use vstd::prelude::*;
use crate::http::Response;
use crate::jwt_auth::AuthenticatedUser;
use crate::repository::{AuthRepository, AuthorRepository, BookRepository};
use crate::value_object::auth::{ReqSignIn, ReqSignUp, ResMe, ResSignIn};
use crate::value_object::author::{ReqAuthor, ResAuthor, ResAuthorList};
use crate::value_object::book::{ReqBook, ResBook, ResBookList};

verus! {

/// The authentication service over a repository.
pub struct AuthService<T: AuthRepository> {
    pub repository: T,
}

impl<T: AuthRepository> AuthService<T> {
    /// The service over the given repository.
    pub fn new(auth_service: T) -> (service: Self)
        ensures
            service.repository == auth_service,
    {
        AuthService { repository: auth_service }
    }

    /// Registers a user: the repository's `sign_up`.
    pub fn sign_up(&mut self, register_data: ReqSignUp) -> (res: Response<String>)
        requires
            old(self).repository.ready(),
        ensures
            final(self).repository.ready(),
            T::signs_up(old(self).repository, register_data, final(self).repository, res),
    {
        self.repository.sign_up(register_data)
    }

    /// Exchanges credentials for a token: the repository's `sign_in`.
    pub fn sign_in(&mut self, sign_in_data: ReqSignIn) -> (res: Response<ResSignIn>)
        requires
            old(self).repository.ready(),
        ensures
            final(self).repository.ready(),
            T::signs_in(old(self).repository, sign_in_data, final(self).repository, res),
    {
        self.repository.sign_in(sign_in_data)
    }

    /// Gives an authenticated user their own record: the repository's `me`.
    pub fn me(&mut self, user: AuthenticatedUser) -> (res: Response<ResMe>)
        requires
            old(self).repository.ready(),
        ensures
            final(self).repository.ready(),
            T::tells(old(self).repository, user, final(self).repository, res),
    {
        self.repository.me(user)
    }
}

/// The author service over a repository.
pub struct AuthorService<T: AuthorRepository> {
    pub repository: T,
}

impl<T: AuthorRepository> AuthorService<T> {
    /// The service over the given repository.
    pub fn new(author_service: T) -> (service: Self)
        ensures
            service.repository == author_service,
    {
        AuthorService { repository: author_service }
    }

    /// All authors: the repository's `index`.
    pub fn index(&mut self, user: AuthenticatedUser) -> (res: Response<ResAuthorList>)
        requires
            old(self).repository.ready(),
        ensures
            final(self).repository.ready(),
            T::lists(old(self).repository, user, final(self).repository, res),
    {
        self.repository.index(user)
    }

    /// The author with an id: the repository's `show`.
    pub fn show(&mut self, user: AuthenticatedUser, id: i32) -> (res: Response<ResAuthor>)
        requires
            old(self).repository.ready(),
        ensures
            final(self).repository.ready(),
            T::shows(old(self).repository, user, id, final(self).repository, res),
    {
        self.repository.show(user, id)
    }

    /// Changes an author: the repository's `update`.
    pub fn update(&mut self, user: AuthenticatedUser, id: i32, req_author: ReqAuthor) -> (res:
        Response<ResAuthor>)
        requires
            old(self).repository.ready(),
        ensures
            final(self).repository.ready(),
            T::updates(old(self).repository, user, id, req_author, final(self).repository, res),
    {
        self.repository.update(user, id, req_author)
    }

    /// Deletes an author: the repository's `delete`.
    pub fn delete(&mut self, user: AuthenticatedUser, id: i32) -> (res: Response<String>)
        requires
            old(self).repository.ready(),
        ensures
            final(self).repository.ready(),
            T::deletes(old(self).repository, user, id, final(self).repository, res),
    {
        self.repository.delete(user, id)
    }

    /// Stores an author: the repository's `create`.
    pub fn create(&mut self, user: AuthenticatedUser, req_author: ReqAuthor) -> (res: Response<
        ResAuthor,
    >)
        requires
            old(self).repository.ready(),
        ensures
            final(self).repository.ready(),
            T::creates(old(self).repository, user, req_author, final(self).repository, res),
    {
        self.repository.create(user, req_author)
    }

    /// The books of an author: the repository's `get_books`.
    pub fn get_books(&mut self, user: AuthenticatedUser, author_id: i32) -> (res: Response<
        ResBookList,
    >)
        requires
            old(self).repository.ready(),
        ensures
            final(self).repository.ready(),
            T::lists_books(old(self).repository, user, author_id, final(self).repository, res),
    {
        self.repository.get_books(user, author_id)
    }
}

/// The book service over a repository.
pub struct BookService<T: BookRepository> {
    pub repository: T,
}

impl<T: BookRepository> BookService<T> {
    /// The service over the given repository.
    pub fn new(book_service: T) -> (service: Self)
        ensures
            service.repository == book_service,
    {
        BookService { repository: book_service }
    }

    /// All books: the repository's `index`.
    pub fn index(&mut self, user: AuthenticatedUser) -> (res: Response<ResBookList>)
        requires
            old(self).repository.ready(),
        ensures
            final(self).repository.ready(),
            T::lists(old(self).repository, user, final(self).repository, res),
    {
        self.repository.index(user)
    }

    /// The book with an id: the repository's `show`.
    pub fn show(&mut self, user: AuthenticatedUser, id: i32) -> (res: Response<ResBook>)
        requires
            old(self).repository.ready(),
        ensures
            final(self).repository.ready(),
            T::shows(old(self).repository, user, id, final(self).repository, res),
    {
        self.repository.show(user, id)
    }

    /// Changes a book: the repository's `update`.
    pub fn update(&mut self, user: AuthenticatedUser, id: i32, req_book: ReqBook) -> (res: Response<
        ResBook,
    >)
        requires
            old(self).repository.ready(),
        ensures
            final(self).repository.ready(),
            T::updates(old(self).repository, user, id, req_book, final(self).repository, res),
    {
        self.repository.update(user, id, req_book)
    }

    /// Deletes a book: the repository's `delete`.
    pub fn delete(&mut self, user: AuthenticatedUser, id: i32) -> (res: Response<String>)
        requires
            old(self).repository.ready(),
        ensures
            final(self).repository.ready(),
            T::deletes(old(self).repository, user, id, final(self).repository, res),
    {
        self.repository.delete(user, id)
    }

    /// Stores a book: the repository's `create`.
    pub fn create(&mut self, user: AuthenticatedUser, req_book: ReqBook) -> (res: Response<ResBook>)
        requires
            old(self).repository.ready(),
        ensures
            final(self).repository.ready(),
            T::creates(old(self).repository, user, req_book, final(self).repository, res),
    {
        self.repository.create(user, req_book)
    }
}

} // verus!
