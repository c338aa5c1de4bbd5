//! Flows and their effects.
//!
//! A flow decides; it performs nothing itself. It is started with a request
//! and names the first effect it needs: a request to the user store, the
//! hashing or checking of a password, a reading of the clock or the signing
//! of claims. Whoever drives the flow has the effect performed and hands the
//! outcome back; the flow answers with the next effect or with the response.
//! What a flow decides depends on the outcomes alone, so it is the same
//! whichever store stands behind it.

use vstd::prelude::*;
use crate::clock::{unix_now, ClockError};
use crate::config::JwtSecret;
use crate::hasher::{
    bcrypt_verify_spec, digest_accepts, hash_password, verify_password, HashingError,
    VerificationError,
};
use crate::http::{ErrorKind, ErrorResponse, ErrorView, Response, Status};
use crate::store::{StoreReply, StoreReplyView, StoreRequest, StoreRequestView};
use crate::token::{carries, issue, jwt_encode_spec, Claims, ClaimsView, IssueError};

verus! {

/// Something a flow needs done before it can go on.
#[derive(Debug)]
pub enum Effect {
    /// A request to the user store.
    Store(StoreRequest),
    /// Hash this password.
    Hash(String),
    /// Check this password against this digest.
    Verify(String, String),
    /// Read the clock.
    ReadClock,
    /// Issue a token for these claims.
    Sign(Claims),
}

/// An `Effect` as a plain value.
pub enum EffectView {
    Store(StoreRequestView),
    Hash(Seq<char>),
    Verify(Seq<char>, Seq<char>),
    ReadClock,
    Sign(ClaimsView),
}

impl View for Effect {
    type V = EffectView;

    open spec fn view(&self) -> EffectView {
        match self {
            Effect::Store(request) => EffectView::Store(request@),
            Effect::Hash(plaintext) => EffectView::Hash(plaintext@),
            Effect::Verify(plaintext, digest) => EffectView::Verify(plaintext@, digest@),
            Effect::ReadClock => EffectView::ReadClock,
            Effect::Sign(claims) => EffectView::Sign(claims@),
        }
    }
}

/// What came of an effect. A failure carries the text that the failing
/// component gave.
#[derive(Debug)]
pub enum Outcome {
    Store(StoreReply),
    Hashed(Result<String, HashingError>),
    Verified(Result<bool, VerificationError>),
    Clock(Result<u64, ClockError>),
    Signed(Result<String, IssueError>),
}

/// An `Outcome` as a plain value.
pub enum OutcomeView {
    Store(StoreReplyView),
    Hashed(Result<Seq<char>, Seq<char>>),
    Verified(Result<bool, Seq<char>>),
    Clock(Result<int, Seq<char>>),
    Signed(Result<Seq<char>, Seq<char>>),
}

impl View for Outcome {
    type V = OutcomeView;

    open spec fn view(&self) -> OutcomeView {
        match self {
            Outcome::Store(reply) => OutcomeView::Store(reply@),
            Outcome::Hashed(hashed) => OutcomeView::Hashed(
                match hashed {
                    Ok(digest) => Ok(digest@),
                    Err(e) => Err(e.detail@),
                },
            ),
            Outcome::Verified(verified) => OutcomeView::Verified(
                match verified {
                    Ok(accepted) => Ok(*accepted),
                    Err(e) => Err(e.detail@),
                },
            ),
            Outcome::Clock(clock) => OutcomeView::Clock(
                match clock {
                    Ok(now) => Ok(*now as int),
                    Err(e) => Err(e.detail@),
                },
            ),
            Outcome::Signed(signed) => OutcomeView::Signed(
                match signed {
                    Ok(token) => Ok(token@),
                    Err(e) => Err(e.detail@),
                },
            ),
        }
    }
}

/// What a flow says after each outcome: the next effect, or the response
/// that ends it.
#[derive(Debug)]
pub enum Step<T> {
    Perform(Effect),
    Finish(Response<T>),
}

/// A `Step` as a plain value.
pub enum StepView<V> {
    Perform(EffectView),
    Finish(Result<(Status, V), ErrorView>),
}

impl<T: View> View for Step<T> {
    type V = StepView<T::V>;

    open spec fn view(&self) -> StepView<T::V> {
        match self {
            Step::Perform(effect) => StepView::Perform(effect@),
            Step::Finish(Ok(success)) => StepView::Finish(Ok((success.status, success.body@))),
            Step::Finish(Err(e)) => StepView::Finish(Err(e@)),
        }
    }
}

/// The failure of a flow that was handed an outcome it did not ask for.
pub open spec fn out_of_step() -> ErrorView {
    ErrorView {
        kind: ErrorKind::InternalFailure,
        message: "Internal error: an outcome arrived out of step"@,
    }
}

/// The failure of a flow that was handed an outcome it did not ask for.
pub fn out_of_step_error() -> (e: ErrorResponse)
    ensures
        e@ == out_of_step(),
{
    ErrorResponse::new(ErrorKind::InternalFailure, "Internal error: an outcome arrived out of step")
}

/// Whether an outcome is one that performing an effect outside the store
/// can give under a secret.
///
/// A digest that hashing returns is accepted for the password it was made
/// of. Checking a password and signing claims depend on their inputs alone.
/// Of the clock nothing is known but that its reading fits 64 bits.
pub open spec fn may_come_of(effect: EffectView, secret: Seq<char>, outcome: OutcomeView) -> bool {
    match effect {
        EffectView::Store(_) => false,
        EffectView::Hash(plaintext) => {
            &&& outcome matches OutcomeView::Hashed(hashed)
            &&& hashed matches Ok(digest) ==> digest_accepts(digest, plaintext)
        },
        EffectView::Verify(plaintext, digest) => {
            &&& outcome matches OutcomeView::Verified(verified)
            &&& match verified {
                Ok(accepted) => bcrypt_verify_spec(plaintext, digest) == Some(accepted),
                Err(_) => bcrypt_verify_spec(plaintext, digest) is None,
            }
        },
        EffectView::ReadClock => {
            &&& outcome matches OutcomeView::Clock(clock)
            &&& clock matches Ok(now) ==> 0 <= now <= u64::MAX
        },
        EffectView::Sign(claims) => {
            &&& outcome matches OutcomeView::Signed(signed)
            &&& match signed {
                Ok(token) => {
                    &&& jwt_encode_spec(claims.sub, claims.role, claims.exp, secret) == Some(token)
                    &&& carries(token, claims, secret)
                },
                Err(_) => jwt_encode_spec(claims.sub, claims.role, claims.exp, secret) is None,
            }
        },
    }
}

/// Performs an effect that needs no store: hashes or checks a password,
/// reads the clock, or issues a token under the secret. A request to the
/// store is handed back unperformed, for the caller's store to answer.
pub fn carry_out(effect: Effect, secret: &JwtSecret) -> (res: Result<Outcome, StoreRequest>)
    ensures
        match effect {
            Effect::Store(request) => res == Err::<Outcome, StoreRequest>(request),
            _ => res matches Ok(outcome) && may_come_of(effect@, secret.jwt_secret@, outcome@),
        },
{
    match effect {
        Effect::Store(request) => Err(request),
        Effect::Hash(plaintext) => Ok(Outcome::Hashed(hash_password(plaintext.as_str()))),
        Effect::Verify(plaintext, digest) => Ok(
            Outcome::Verified(verify_password(plaintext.as_str(), digest.as_str())),
        ),
        Effect::ReadClock => Ok(Outcome::Clock(unix_now())),
        Effect::Sign(claims) => Ok(Outcome::Signed(issue(&claims, secret.jwt_secret.as_str()))),
    }
}

} // verus!
