use mini_book::config::JwtSecret;
use mini_book::entities::NewUser;
use mini_book::http::{status_of, ErrorKind, Status};
use mini_book::jwt_auth::AuthenticatedUser;
use mini_book::memory::MemoryAuthRepository;
use mini_book::repository::AuthRepository;
use mini_book::service::AuthService;
use mini_book::store::{MemoryUserStore, StoreReply, StoreRequest};
use mini_book::token::{validate, TokenError};
use mini_book::value_object::auth::{ReqSignIn, ReqSignUp};

fn sign_up_request(email: &str, password: &str) -> ReqSignUp {
    ReqSignUp { email: email.to_string(), password: password.to_string(), firstname: None, lastname: None }
}

fn sign_in_request(email: &str, password: &str) -> ReqSignIn {
    ReqSignIn { email: email.to_string(), password: password.to_string() }
}

fn new_user(email: &str, digest: &str) -> NewUser {
    NewUser { email: email.to_string(), password: digest.to_string(), firstname: None, lastname: None }
}

// A digest of "password" at a low cost, so that a sign-in is quick to check.
const DIGEST_OF_PASSWORD: &str = "$2y$05$bvIG6Nmid91Mu9RcmmWZfO5HJIMCT8riNW0hEp8f6/FuA2/mHZFpe";

fn repository_with(users: &[(&str, &str)]) -> MemoryAuthRepository {
    let mut repository = MemoryAuthRepository::new(JwtSecret::new("meowmeow"));
    for (email, digest) in users {
        assert!(matches!(
            repository.store.perform(StoreRequest::Insert(new_user(email, digest))),
            StoreReply::Inserted(_)
        ));
    }
    repository
}

#[test]
fn sign_up_sign_in_wrong_password_and_duplicate() {
    let mut repository = MemoryAuthRepository::new(JwtSecret::new("meowmeow"));

    let created = repository.sign_up(sign_up_request("a@x.com", "secret1")).unwrap();
    assert_eq!(created.status.code(), 201);
    assert_eq!(created.body, "Account created successfully!");

    let signed_in = repository.sign_in_at(sign_in_request("a@x.com", "secret1"), 1_700_000_000).unwrap();
    assert_eq!(signed_in.status.code(), 200);
    let claims = validate(&signed_in.body.token, "meowmeow", 1_700_000_000).unwrap();
    assert_eq!(claims.sub, 1);
    assert_eq!(claims.role, "user");
    assert_eq!(claims.exp, 1_700_000_000 + 4 * 60 * 60);

    let wrong = repository.sign_in_at(sign_in_request("a@x.com", "wrong"), 1_700_000_000).unwrap_err();
    assert_eq!(wrong.status().code(), 401);
    assert_eq!(wrong.kind, ErrorKind::InvalidCredentials);

    let again = repository.sign_up(sign_up_request("a@x.com", "secret1")).unwrap_err();
    assert_eq!(again.status().code(), 422);
    assert_eq!(again.kind, ErrorKind::DuplicateEmail);
    assert_eq!(again.message, "An account exists with this email address");
    assert_eq!(repository.store.len(), 1);
    assert!(!repository.store.in_transaction());
}

#[test]
fn sign_in_after_sign_up_names_the_new_user() {
    let mut repository = repository_with(&[("first@x.com", DIGEST_OF_PASSWORD), ("second@x.com", DIGEST_OF_PASSWORD)]);
    let mut request = sign_up_request("b@x.com", "pässword with spaces");
    request.firstname = Some("Bea".to_string());
    request.lastname = Some("Ng".to_string());
    assert_eq!(status_of(&repository.sign_up(request)), Status::Created);
    assert_eq!(repository.store.len(), 3);

    let token = repository.sign_in(sign_in_request("b@x.com", "pässword with spaces")).unwrap().body.token;
    let now = mini_book::clock::unix_now().unwrap();
    let claims = validate(&token, "meowmeow", now).unwrap();
    assert_eq!(claims.sub, 3);
    assert!(claims.exp >= now + 4 * 60 * 60 - 5 && claims.exp <= now + 4 * 60 * 60);

    let me = repository.me(AuthenticatedUser { id: claims.sub as u32 }).unwrap();
    assert_eq!(me.status.code(), 200);
    assert_eq!(me.body.id, 3);
    assert_eq!(me.body.email, "b@x.com");
    assert_eq!(me.body.firstname, Some("Bea".to_string()));
    assert_eq!(me.body.lastname, Some("Ng".to_string()));
}

#[test]
fn stored_password_is_a_digest() {
    let mut repository = MemoryAuthRepository::new(JwtSecret::new("meowmeow"));
    repository.sign_up(sign_up_request("a@x.com", "secret1")).unwrap();
    match repository.store.perform(StoreRequest::FindByEmail("a@x.com".to_string())) {
        StoreReply::Found(Some(user)) => {
            assert_eq!(user.id, 1);
            assert_ne!(user.password, "secret1");
            assert!(mini_book::hasher::verify_password("secret1", &user.password).unwrap());
        }
        _ => panic!("the user is not stored"),
    }
}

#[test]
fn duplicate_sign_up_leaves_one_record() {
    let mut repository = repository_with(&[("a@x.com", DIGEST_OF_PASSWORD)]);
    for password in ["password", "another"] {
        let e = repository.sign_up(sign_up_request("a@x.com", password)).unwrap_err();
        assert_eq!((e.kind, e.status().code()), (ErrorKind::DuplicateEmail, 422));
    }
    assert_eq!(repository.store.len(), 1);
    assert!(repository.sign_in_at(sign_in_request("a@x.com", "password"), 0).is_ok());
    assert_eq!(
        repository.sign_in_at(sign_in_request("a@x.com", "another"), 0).unwrap_err().kind,
        ErrorKind::InvalidCredentials
    );
}

#[test]
fn emails_are_case_sensitive() {
    let mut repository = repository_with(&[("a@x.com", DIGEST_OF_PASSWORD)]);
    assert_eq!(
        repository.sign_in_at(sign_in_request("A@x.com", "password"), 0).unwrap_err().kind,
        ErrorKind::InvalidCredentials
    );
    assert!(matches!(
        repository.store.perform(StoreRequest::Insert(new_user("A@x.com", DIGEST_OF_PASSWORD))),
        StoreReply::Inserted(2)
    ));
}

#[test]
fn unknown_email_and_wrong_password_fail_alike() {
    let mut repository = repository_with(&[("a@x.com", DIGEST_OF_PASSWORD)]);
    let unknown = repository.sign_in_at(sign_in_request("nobody@x.com", "password"), 5).unwrap_err();
    let wrong = repository.sign_in_at(sign_in_request("a@x.com", "Password"), 77).unwrap_err();
    assert_eq!(unknown.kind, wrong.kind);
    assert_eq!(unknown.message, wrong.message);
    assert_eq!(unknown.status(), wrong.status());
    assert_eq!(unknown.kind, ErrorKind::InvalidCredentials);
    assert_eq!(unknown.message, "Email or password is incorrect");
    assert_eq!(unknown.status().code(), 401);
}

#[test]
fn sign_in_token_expires_after_four_hours() {
    let mut repository = repository_with(&[("a@x.com", DIGEST_OF_PASSWORD)]);
    let issued_at = 1_750_000_000;
    let token = repository.sign_in_at(sign_in_request("a@x.com", "password"), issued_at).unwrap().body.token;
    let secret = JwtSecret::new("meowmeow");
    let at = |now| AuthenticatedUser::from_request_at(Some(&token), &secret, now);
    assert_eq!(at(issued_at).unwrap().id, 1);
    assert_eq!(at(issued_at + 3 * 3600 + 59 * 60).unwrap().id, 1);
    assert_eq!(at(issued_at + 4 * 3600 - 1).unwrap().id, 1);
    assert_eq!(at(issued_at + 4 * 3600).unwrap_err().kind, ErrorKind::Unauthenticated);
    assert_eq!(at(issued_at + 4 * 3600 + 1).unwrap_err().kind, ErrorKind::Unauthenticated);
    assert_eq!(validate(&token, "meowmeow", issued_at + 4 * 3600).unwrap_err(), TokenError::Expired);
}

#[test]
fn sign_in_at_the_end_of_time_is_internal() {
    let mut repository = repository_with(&[("a@x.com", DIGEST_OF_PASSWORD)]);
    let e = repository.sign_in_at(sign_in_request("a@x.com", "password"), u64::MAX).unwrap_err();
    assert_eq!(e.kind, ErrorKind::InternalFailure);
    assert_eq!(e.status().code(), 500);
    assert_eq!(e.message, "Time error: the expiry lies beyond the end of time");
}

#[test]
fn sign_in_with_an_unreadable_digest_is_internal() {
    let mut repository = repository_with(&[("a@x.com", "plainly not a digest")]);
    let e = repository.sign_in_at(sign_in_request("a@x.com", "password"), 0).unwrap_err();
    assert_eq!(e.kind, ErrorKind::InternalFailure);
    assert!(e.message.starts_with("Password verification error: "));
    assert!(e.message.len() > "Password verification error: ".len());
}

#[test]
fn token_of_another_secret_does_not_authenticate() {
    let mut repository = repository_with(&[("a@x.com", DIGEST_OF_PASSWORD)]);
    let token = repository.sign_in_at(sign_in_request("a@x.com", "password"), 10).unwrap().body.token;
    let other = JwtSecret::new("woofwoof");
    let e = AuthenticatedUser::from_request_at(Some(&token), &other, 10).unwrap_err();
    assert_eq!((e.kind, e.message.as_str()), (ErrorKind::Unauthenticated, "Invalid token"));
}

#[test]
fn identity_of_a_removed_user_is_not_found() {
    let mut repository = repository_with(&[("a@x.com", DIGEST_OF_PASSWORD), ("b@x.com", DIGEST_OF_PASSWORD)]);
    let token = repository.sign_in_at(sign_in_request("b@x.com", "password"), 10).unwrap().body.token;
    let user = AuthenticatedUser::from_request_at(Some(&token), &repository.secret, 11).unwrap();
    assert_eq!(user.id, 2);
    assert_eq!(repository.me(user).unwrap().body.email, "b@x.com");

    assert!(repository.store.remove(2));
    assert!(!repository.store.remove(2));
    let again = AuthenticatedUser::from_request_at(Some(&token), &repository.secret, 12).unwrap();
    let e = repository.me(again).unwrap_err();
    assert_eq!(e.kind, ErrorKind::NotFound);
    assert_ne!(e.kind, ErrorKind::InternalFailure);
    assert_eq!(e.status().code(), 404);
    assert_eq!(e.message, "User not found");
    assert_eq!(repository.me(AuthenticatedUser { id: 1 }).unwrap().body.email, "a@x.com");
}

#[test]
fn removed_id_is_not_given_again() {
    let mut store = MemoryUserStore::new();
    assert!(matches!(store.perform(StoreRequest::Insert(new_user("a@x.com", "d"))), StoreReply::Inserted(1)));
    assert!(store.remove(1));
    assert_eq!(store.len(), 0);
    assert!(matches!(store.perform(StoreRequest::Insert(new_user("a@x.com", "d"))), StoreReply::Inserted(2)));
}

#[test]
fn store_transactions() {
    let mut store = MemoryUserStore::new();
    assert!(matches!(store.perform(StoreRequest::Commit), StoreReply::Failed(_)));
    assert!(matches!(store.perform(StoreRequest::Rollback), StoreReply::Done));
    assert!(matches!(store.perform(StoreRequest::Begin), StoreReply::Done));
    assert!(store.in_transaction());
    match store.perform(StoreRequest::Begin) {
        StoreReply::Failed(detail) => assert_eq!(detail, "a transaction is already open"),
        _ => panic!("a second transaction was opened"),
    }
    assert!(matches!(store.perform(StoreRequest::Insert(new_user("a@x.com", "d"))), StoreReply::Inserted(1)));
    assert!(!store.remove(1));
    assert!(matches!(store.perform(StoreRequest::Rollback), StoreReply::Done));
    assert_eq!(store.len(), 0);
    assert!(!store.in_transaction());
    assert!(matches!(store.perform(StoreRequest::FindByEmail("a@x.com".to_string())), StoreReply::Found(None)));

    assert!(matches!(store.perform(StoreRequest::Begin), StoreReply::Done));
    assert!(matches!(store.perform(StoreRequest::Insert(new_user("a@x.com", "d"))), StoreReply::Inserted(2)));
    assert!(matches!(store.perform(StoreRequest::Commit), StoreReply::Done));
    assert!(matches!(store.perform(StoreRequest::Rollback), StoreReply::Done));
    assert_eq!(store.len(), 1);
    match store.perform(StoreRequest::Insert(new_user("a@x.com", "e"))) {
        StoreReply::Failed(detail) => assert_eq!(detail, "the email is already stored"),
        _ => panic!("an email was stored twice"),
    }
    match store.perform(StoreRequest::FindById(2)) {
        StoreReply::Found(Some(user)) => assert_eq!((user.email.as_str(), user.password.as_str()), ("a@x.com", "d")),
        _ => panic!("the user is not found by id"),
    }
    assert!(matches!(store.perform(StoreRequest::FindById(1)), StoreReply::Found(None)));
    match store.perform(StoreRequest::Commit) {
        StoreReply::Failed(detail) => assert_eq!(detail, "no transaction is open"),
        _ => panic!("nothing to commit"),
    }
}

#[test]
fn service_forwards_to_the_repository() {
    let repository = repository_with(&[("a@x.com", DIGEST_OF_PASSWORD)]);
    let mut service = AuthService::new(repository);
    let e = service.sign_up(sign_up_request("a@x.com", "x")).unwrap_err();
    assert_eq!(e.kind, ErrorKind::DuplicateEmail);
    let token = service.sign_in(sign_in_request("a@x.com", "password")).unwrap().body.token;
    assert_eq!(validate(&token, "meowmeow", 0).unwrap().sub, 1);
    assert_eq!(service.me(AuthenticatedUser { id: 1 }).unwrap().body.email, "a@x.com");
    assert_eq!(service.me(AuthenticatedUser { id: 9 }).unwrap_err().kind, ErrorKind::NotFound);
    assert_eq!(service.repository.store.len(), 1);
}
