//! The authentication core of a small book-catalogue backend, with the
//! decisions of every handler stated as contracts and proved.
//!
//! - `hasher` hashes and checks passwords, `token` issues and validates
//!   tokens, `clock` reads the time; `jwt_auth` turns the token of a request
//!   into the identity that handlers work with.
//! - `sign_up`, `sign_in` and `identity` are the three flows of the core.
//!   A flow only decides: `flow` names the effects it asks for and the
//!   outcomes it is handed, and `store` the requests to the user store.
//! - `memory` drives the flows against a store held in memory and proves what
//!   a user can rely on across sign-up, sign-in and identity lookup.
//! - `repository` holds the interfaces that `service` is written against.
//! - `authors` and `books` decide the responses of the catalogue handlers.
//! - `config`, `http`, `entities`, `value_object` and `text` hold the values
//!   that all of these exchange.

pub mod authors;
pub mod books;
pub mod clock;
pub mod config;
pub mod entities;
pub mod flow;
pub mod hasher;
pub mod http;
pub mod identity;
pub mod jwt_auth;
pub mod memory;
pub mod repository;
pub mod service;
pub mod sign_in;
pub mod sign_up;
pub mod store;
pub mod text;
pub mod token;
pub mod value_object;
