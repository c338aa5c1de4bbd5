//! Bodies of the authentication requests and responses.

use vstd::prelude::*;
use crate::text::opt_text;

verus! {

/// The body of a sign-in request.
#[derive(Debug)]
pub struct ReqSignIn {
    pub email: String,
    pub password: String,
}

/// The body of a successful sign-in: the token.
#[derive(Debug)]
pub struct ResSignIn {
    pub token: String,
}

impl View for ResSignIn {
    type V = Seq<char>;

    open spec fn view(&self) -> Seq<char> {
        self.token@
    }
}

/// The body of a sign-up request.
#[derive(Debug)]
pub struct ReqSignUp {
    pub email: String,
    pub password: String,
    pub firstname: Option<String>,
    pub lastname: Option<String>,
}

/// A `ReqSignUp` as a plain value.
pub struct ReqSignUpView {
    pub email: Seq<char>,
    pub password: Seq<char>,
    pub firstname: Option<Seq<char>>,
    pub lastname: Option<Seq<char>>,
}

impl View for ReqSignUp {
    type V = ReqSignUpView;

    open spec fn view(&self) -> ReqSignUpView {
        ReqSignUpView {
            email: self.email@,
            password: self.password@,
            firstname: opt_text(self.firstname),
            lastname: opt_text(self.lastname),
        }
    }
}

/// What a user is told of their own record: never the password's digest.
#[derive(Debug)]
pub struct ResMe {
    pub id: u32,
    pub email: String,
    pub firstname: Option<String>,
    pub lastname: Option<String>,
}

/// A `ResMe` as a plain value.
pub struct ResMeView {
    pub id: int,
    pub email: Seq<char>,
    pub firstname: Option<Seq<char>>,
    pub lastname: Option<Seq<char>>,
}

impl View for ResMe {
    type V = ResMeView;

    open spec fn view(&self) -> ResMeView {
        ResMeView {
            id: self.id as int,
            email: self.email@,
            firstname: opt_text(self.firstname),
            lastname: opt_text(self.lastname),
        }
    }
}

} // verus!
