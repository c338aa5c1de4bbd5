use mini_book::authors;
use mini_book::books;
use mini_book::entities::{Author, Book};
use mini_book::http::{ErrorKind, ErrorResponse, Response, Status, SuccessResponse};
use mini_book::jwt_auth::AuthenticatedUser;
use mini_book::repository::{AuthorRepository, BookRepository};
use mini_book::service::{AuthorService, BookService};
use mini_book::store::StoreFailure;
use mini_book::value_object::author::{ReqAuthor, ResAuthor, ResAuthorList};
use mini_book::value_object::book::{ReqBook, ResBook, ResBookList};

fn author(id: i32, firstname: &str) -> Author {
    Author { id, firstname: firstname.to_string(), lastname: "Lee".to_string(), bio: "bio".to_string() }
}

fn book(id: i32, title: &str) -> Book {
    Book {
        id,
        user_id: 4,
        author_id: 3,
        title: title.to_string(),
        year: "1999".to_string(),
        cover: "c.png".to_string(),
    }
}

fn req_author() -> ReqAuthor {
    ReqAuthor { firstname: "New".to_string(), lastname: "Name".to_string(), bio: "new bio".to_string() }
}

fn req_book() -> ReqBook {
    ReqBook { author_id: 8, title: "New".to_string(), year: "2024".to_string(), cover: "n.png".to_string() }
}

fn failed<T>() -> Result<T, StoreFailure> {
    Err(StoreFailure { detail: "connection lost".to_string() })
}

fn failure<T>(res: Response<T>) -> (u16, ErrorKind, String) {
    match res {
        Err(e) => (e.status().code(), e.kind, e.message),
        Ok(_) => panic!("the response is no failure"),
    }
}

fn refusal<T>(res: Result<T, ErrorResponse>) -> (u16, ErrorKind, String) {
    match res {
        Err(e) => (e.status().code(), e.kind, e.message),
        Ok(_) => panic!("the decision is no failure"),
    }
}

#[test]
fn authors_index() {
    let listed = authors::index_listed(Ok(vec![author(2, "Bo"), author(1, "Al")])).unwrap();
    assert_eq!(listed.status.code(), 200);
    assert_eq!(listed.body.total, 2);
    assert_eq!(listed.body.authors.len(), 2);
    assert_eq!((listed.body.authors[0].id, listed.body.authors[0].firstname.as_str()), (2, "Bo"));
    assert_eq!((listed.body.authors[1].id, listed.body.authors[1].firstname.as_str()), (1, "Al"));
    let empty = authors::index_listed(Ok(vec![])).unwrap();
    assert_eq!((empty.body.total, empty.body.authors.len()), (0, 0));
    assert_eq!(
        failure(authors::index_listed(failed())),
        (500, ErrorKind::InternalFailure, "Internal Error".to_string())
    );
}

#[test]
fn authors_show() {
    let shown = authors::show_found(Ok(Some(author(5, "Al")))).unwrap();
    assert_eq!(shown.status.code(), 200);
    assert_eq!((shown.body.id, shown.body.firstname.as_str(), shown.body.bio.as_str()), (5, "Al", "bio"));
    assert_eq!(
        failure(authors::show_found(Ok(None))),
        (404, ErrorKind::NotFound, "no author found with the specified Id".to_string())
    );
    assert_eq!(
        failure(authors::show_found(failed())),
        (500, ErrorKind::InternalFailure, "Internal Error please try again".to_string())
    );
}

#[test]
fn authors_create() {
    let draft = authors::create_draft(&req_author());
    assert_eq!((draft.firstname.as_str(), draft.lastname.as_str(), draft.bio.as_str()), ("New", "Name", "new bio"));
    let created = authors::create_saved(Ok(author(6, "New"))).unwrap();
    assert_eq!(created.status.code(), 201);
    assert_eq!(created.body.id, 6);
    assert_eq!(
        failure(authors::create_saved(failed())),
        (500, ErrorKind::InternalFailure, "Failed to create author".to_string())
    );
}

#[test]
fn authors_update() {
    let changed = authors::update_found(Ok(Some(author(5, "Al"))), &req_author()).unwrap();
    assert_eq!(changed.id, 5);
    assert_eq!((changed.firstname.as_str(), changed.lastname.as_str(), changed.bio.as_str()), ("New", "Name", "new bio"));
    assert_eq!(
        refusal(authors::update_found(Ok(None), &req_author())),
        (404, ErrorKind::NotFound, "Author not found".to_string())
    );
    assert_eq!(
        refusal(authors::update_found(failed(), &req_author())),
        (500, ErrorKind::InternalFailure, "Database error".to_string())
    );
    let updated = authors::update_saved(Ok(changed)).unwrap();
    assert_eq!((updated.status.code(), updated.body.id, updated.body.firstname.as_str()), (200, 5, "New"));
    assert_eq!(
        failure(authors::update_saved(failed())),
        (500, ErrorKind::InternalFailure, "Failed to update author".to_string())
    );
}

#[test]
fn authors_delete() {
    assert_eq!(authors::delete_found(Ok(Some(author(5, "Al")))).unwrap().id, 5);
    assert_eq!(
        refusal(authors::delete_found(Ok(None))),
        (404, ErrorKind::NotFound, "Author not found with specific id".to_string())
    );
    assert_eq!(
        refusal(authors::delete_found(failed())),
        (500, ErrorKind::InternalFailure, "Database error".to_string())
    );
    let done = authors::delete_done(Ok(1)).unwrap();
    assert_eq!((done.status.code(), done.body.as_str()), (200, "Author successfully deleted"));
    for rows in [0, 2, u64::MAX] {
        assert_eq!(
            failure(authors::delete_done(Ok(rows))),
            (500, ErrorKind::InternalFailure, "Failed to delete book".to_string())
        );
    }
    assert_eq!(
        failure(authors::delete_done(failed())),
        (500, ErrorKind::InternalFailure, "Error occurred while deleting author".to_string())
    );
}

#[test]
fn authors_books() {
    let listed = authors::books_listed(Ok(vec![
        (author(3, "Al"), vec![book(1, "One"), book(2, "Two")]),
        (author(3, "Al"), vec![book(9, "Nine")]),
    ]))
    .unwrap();
    assert_eq!(listed.status.code(), 200);
    assert_eq!(listed.body.total, 2);
    assert_eq!(listed.body.books[0].title, "One");
    assert_eq!(listed.body.books[1].title, "Two");
    let none = authors::books_listed(Ok(vec![(author(3, "Al"), vec![])])).unwrap();
    assert_eq!((none.body.total, none.body.books.len()), (0, 0));
    assert_eq!(
        failure(authors::books_listed(Ok(vec![]))),
        (404, ErrorKind::NotFound, "Author not found".to_string())
    );
    assert_eq!(
        failure(authors::books_listed(failed())),
        (500, ErrorKind::InternalFailure, "Failed to fetch books".to_string())
    );
}

#[test]
fn books_index_and_show() {
    let listed = books::index_listed(Ok(vec![book(2, "Two"), book(1, "One")])).unwrap();
    assert_eq!((listed.status.code(), listed.body.total), (200, 2));
    assert_eq!((listed.body.books[0].id, listed.body.books[1].id), (2, 1));
    assert_eq!(
        failure(books::index_listed(failed())),
        (500, ErrorKind::InternalFailure, "Internal Error".to_string())
    );
    let shown = books::show_found(Ok(Some(book(7, "Seven")))).unwrap();
    assert_eq!((shown.status.code(), shown.body.id, shown.body.author_id), (200, 7, 3));
    assert_eq!(
        failure(books::show_found(Ok(None))),
        (404, ErrorKind::NotFound, "no book found with the specified ID".to_string())
    );
    assert_eq!(
        failure(books::show_found(failed())),
        (500, ErrorKind::InternalFailure, "Internal Error please try again".to_string())
    );
}

#[test]
fn books_create() {
    let draft = books::create_draft(AuthenticatedUser { id: 4 }, &req_book());
    assert_eq!((draft.user_id, draft.author_id), (4, 8));
    assert_eq!((draft.title.as_str(), draft.year.as_str(), draft.cover.as_str()), ("New", "2024", "n.png"));
    assert_eq!(books::create_draft(AuthenticatedUser { id: u32::MAX }, &req_book()).user_id, -1);
    let created = books::create_saved(Ok(book(7, "New"))).unwrap();
    assert_eq!((created.status.code(), created.body.id), (201, 7));
    assert_eq!(
        failure(books::create_saved(failed())),
        (500, ErrorKind::InternalFailure, "Failed to create book".to_string())
    );
}

#[test]
fn books_update() {
    let change = books::update_found(Ok(Some(book(7, "Old"))), &req_book(), 1_700_000_000).unwrap();
    assert_eq!(change.updated_at, 1_700_000_000);
    assert_eq!((change.book.id, change.book.user_id, change.book.author_id), (7, 4, 8));
    assert_eq!(
        (change.book.title.as_str(), change.book.year.as_str(), change.book.cover.as_str()),
        ("New", "2024", "n.png")
    );
    assert_eq!(
        refusal(books::update_found(Ok(None), &req_book(), 0)),
        (404, ErrorKind::NotFound, "Book not found".to_string())
    );
    assert_eq!(
        refusal(books::update_found(failed(), &req_book(), 0)),
        (500, ErrorKind::InternalFailure, "Database error".to_string())
    );
    let updated = books::update_saved(Ok(change.book)).unwrap();
    assert_eq!((updated.status.code(), updated.body.title.as_str()), (200, "New"));
    assert_eq!(
        failure(books::update_saved(failed())),
        (500, ErrorKind::InternalFailure, "Failed to update book".to_string())
    );
}

#[test]
fn books_delete() {
    assert_eq!(books::delete_found(Ok(Some(book(7, "Old")))).unwrap().id, 7);
    assert_eq!(
        refusal(books::delete_found(Ok(None))),
        (404, ErrorKind::NotFound, "Book not found".to_string())
    );
    assert_eq!(
        refusal(books::delete_found(failed())),
        (500, ErrorKind::InternalFailure, "Database error".to_string())
    );
    let done = books::delete_done(Ok(1)).unwrap();
    assert_eq!((done.status.code(), done.body.as_str()), (200, "Book successfully deleted"));
    assert_eq!(
        failure(books::delete_done(Ok(0))),
        (500, ErrorKind::InternalFailure, "Failed to delete book".to_string())
    );
    assert_eq!(
        failure(books::delete_done(failed())),
        (500, ErrorKind::InternalFailure, "Error occurred while deleting book".to_string())
    );
}

/// A catalogue that keeps its records in two lists.
struct Shelf {
    authors: Vec<Author>,
    books: Vec<Book>,
    calls: u32,
}

impl Shelf {
    fn find_author(&self, id: i32) -> Option<Author> {
        self.authors.iter().find(|a| a.id == id).map(|a| author(a.id, &a.firstname))
    }

    fn find_book(&self, id: i32) -> Option<Book> {
        self.books.iter().find(|b| b.id == id).map(|b| book(b.id, &b.title))
    }
}

impl AuthorRepository for Shelf {
    fn index(&mut self, _user: AuthenticatedUser) -> Response<ResAuthorList> {
        self.calls += 1;
        authors::index_listed(Ok(self.authors.iter().map(|a| author(a.id, &a.firstname)).collect()))
    }

    fn show(&mut self, _user: AuthenticatedUser, id: i32) -> Response<ResAuthor> {
        self.calls += 1;
        authors::show_found(Ok(self.find_author(id)))
    }

    fn update(&mut self, _user: AuthenticatedUser, id: i32, req_author: ReqAuthor) -> Response<ResAuthor> {
        self.calls += 1;
        let changed = authors::update_found(Ok(self.find_author(id)), &req_author)?;
        self.authors.retain(|a| a.id != id);
        self.authors.push(author(changed.id, &changed.firstname));
        authors::update_saved(Ok(changed))
    }

    fn delete(&mut self, _user: AuthenticatedUser, id: i32) -> Response<String> {
        self.calls += 1;
        let doomed = authors::delete_found(Ok(self.find_author(id)))?;
        self.authors.retain(|a| a.id != doomed.id);
        authors::delete_done(Ok(1))
    }

    fn create(&mut self, _user: AuthenticatedUser, req_author: ReqAuthor) -> Response<ResAuthor> {
        self.calls += 1;
        let draft = authors::create_draft(&req_author);
        let id = self.authors.len() as i32 + 1;
        self.authors.push(author(id, &draft.firstname));
        authors::create_saved(Ok(Author { id, firstname: draft.firstname, lastname: draft.lastname, bio: draft.bio }))
    }

    fn get_books(&mut self, _user: AuthenticatedUser, author_id: i32) -> Response<ResBookList> {
        self.calls += 1;
        let entries = match self.find_author(author_id) {
            Some(a) => vec![(a, self.books.iter().filter(|b| b.author_id == author_id).map(|b| book(b.id, &b.title)).collect())],
            None => vec![],
        };
        authors::books_listed(Ok(entries))
    }
}

impl BookRepository for Shelf {
    fn index(&mut self, _user: AuthenticatedUser) -> Response<ResBookList> {
        self.calls += 1;
        books::index_listed(Ok(self.books.iter().map(|b| book(b.id, &b.title)).collect()))
    }

    fn show(&mut self, _user: AuthenticatedUser, id: i32) -> Response<ResBook> {
        self.calls += 1;
        books::show_found(Ok(self.find_book(id)))
    }

    fn update(&mut self, _user: AuthenticatedUser, id: i32, req_book: ReqBook) -> Response<ResBook> {
        self.calls += 1;
        let change = books::update_found(Ok(self.find_book(id)), &req_book, 1)?;
        books::update_saved(Ok(change.book))
    }

    fn delete(&mut self, _user: AuthenticatedUser, id: i32) -> Response<String> {
        self.calls += 1;
        let doomed = books::delete_found(Ok(self.find_book(id)))?;
        self.books.retain(|b| b.id != doomed.id);
        books::delete_done(Ok(1))
    }

    fn create(&mut self, user: AuthenticatedUser, req_book: ReqBook) -> Response<ResBook> {
        self.calls += 1;
        let draft = books::create_draft(user, &req_book);
        let id = self.books.len() as i32 + 1;
        let stored = Book {
            id,
            user_id: draft.user_id,
            author_id: draft.author_id,
            title: draft.title,
            year: draft.year,
            cover: draft.cover,
        };
        self.books.push(book(id, &stored.title));
        books::create_saved(Ok(stored))
    }
}

fn shelf() -> Shelf {
    Shelf { authors: vec![author(3, "Al")], books: vec![book(1, "One")], calls: 0 }
}

#[test]
fn author_service_forwards_every_call() {
    let user = AuthenticatedUser { id: 4 };
    let mut service = AuthorService::new(shelf());
    assert_eq!(service.index(user).unwrap().body.total, 1);
    assert_eq!(service.show(user, 3).unwrap().body.firstname, "Al");
    assert_eq!(failure(service.show(user, 9)).0, 404);
    assert_eq!(service.update(user, 3, req_author()).unwrap().body.firstname, "New");
    assert_eq!(failure(service.update(user, 9, req_author())).2, "Author not found");
    assert_eq!(service.get_books(user, 3).unwrap().body.total, 1);
    assert_eq!(failure(service.get_books(user, 9)).2, "Author not found");
    let created = service.create(user, req_author()).unwrap();
    assert_eq!((created.status, created.body.id), (Status::Created, 2));
    assert_eq!(service.delete(user, 3).unwrap().body, "Author successfully deleted");
    assert_eq!(failure(service.delete(user, 3)).2, "Author not found with specific id");
    assert_eq!(service.repository.calls, 10);
    assert_eq!(service.repository.authors.len(), 1);
}

#[test]
fn book_service_forwards_every_call() {
    let user = AuthenticatedUser { id: 4 };
    let mut service = BookService::new(shelf());
    assert_eq!(service.index(user).unwrap().body.total, 1);
    assert_eq!(service.show(user, 1).unwrap().body.title, "One");
    assert_eq!(failure(service.show(user, 2)).2, "no book found with the specified ID");
    assert_eq!(service.update(user, 1, req_book()).unwrap().body.title, "New");
    assert_eq!(failure(service.update(user, 2, req_book())).2, "Book not found");
    let created: SuccessResponse<ResBook> = service.create(user, req_book()).unwrap();
    assert_eq!((created.status.code(), created.body.id, created.body.author_id), (201, 2, 8));
    assert_eq!(service.delete(user, 1).unwrap().body, "Book successfully deleted");
    assert_eq!(failure(service.delete(user, 1)).2, "Book not found");
    assert_eq!(service.repository.calls, 8);
}
