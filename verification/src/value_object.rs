//! The bodies of requests and responses.

pub mod auth;
pub mod author;
pub mod book;
