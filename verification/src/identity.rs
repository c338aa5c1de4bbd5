//! Identity lookup: an authenticated user asks for their own record.

use vstd::prelude::*;
use crate::entities::UserView;
use crate::flow::{
    out_of_step, out_of_step_error, Effect, EffectView, Outcome, OutcomeView, Step, StepView,
};
use crate::http::{
    internal_failure, ErrorKind, ErrorResponse, ErrorView, Status, SuccessResponse,
};
use crate::jwt_auth::{as_signed, as_unsigned, to_signed, to_unsigned, AuthenticatedUser};
use crate::store::{StoreReply, StoreReplyView, StoreRequest, StoreRequestView};
use crate::value_object::auth::{ResMe, ResMeView};

verus! {

/// The failure of an identity lookup whose user is not stored.
pub open spec fn user_not_found() -> ErrorView {
    ErrorView { kind: ErrorKind::NotFound, message: "User not found"@ }
}

/// What a user is told of a stored record: the id, the email and the names,
/// never the password's digest.
pub open spec fn profile_of(user: UserView) -> ResMeView {
    ResMeView {
        id: as_unsigned(user.id),
        email: user.email,
        firstname: user.firstname,
        lastname: user.lastname,
    }
}

/// An identity lookup under way: whether it still waits for the store.
#[derive(Debug)]
pub struct Identity {
    pub waiting: bool,
}

/// What an identity lookup does with an outcome: a stored user gives the
/// profile, a user that is not stored (any longer) gives `NotFound`, and a
/// failure of the store gives `InternalFailure`.
pub open spec fn identity_step(waiting: bool, outcome: OutcomeView) -> StepView<ResMeView> {
    if waiting {
        match outcome {
            OutcomeView::Store(StoreReplyView::Found(Some(user))) => StepView::Finish(
                Ok((Status::Success, profile_of(user))),
            ),
            OutcomeView::Store(StoreReplyView::Found(None)) => StepView::Finish(
                Err(user_not_found()),
            ),
            OutcomeView::Store(StoreReplyView::Failed(detail)) => StepView::Finish(
                Err(internal_failure("Database error: "@, detail)),
            ),
            _ => StepView::Finish(Err(out_of_step())),
        }
    } else {
        StepView::Finish(Err(out_of_step()))
    }
}

/// How an identity lookup begins: by looking the user's id up.
pub open spec fn identity_start(user: AuthenticatedUser) -> StepView<ResMeView> {
    StepView::Perform(EffectView::Store(StoreRequestView::FindById(as_signed(user.id as int))))
}

impl Identity {
    /// Starts the lookup for an authenticated user.
    pub fn start(user: AuthenticatedUser) -> (started: (Identity, Step<ResMe>))
        ensures
            started.0.waiting,
            started.1@ == identity_start(user),
    {
        (
            Identity { waiting: true },
            Step::Perform(Effect::Store(StoreRequest::FindById(to_signed(user.id)))),
        )
    }

    /// Takes the store's reply and gives the response.
    pub fn step(self, outcome: Outcome) -> (next: (Identity, Step<ResMe>))
        ensures
            !next.0.waiting,
            next.1@ == identity_step(self.waiting, outcome@),
    {
        let done = Identity { waiting: false };
        if !self.waiting {
            return (done, Step::Finish(Err(out_of_step_error())));
        }
        match outcome {
            Outcome::Store(StoreReply::Found(Some(user))) => (
                done,
                Step::Finish(
                    Ok(
                        SuccessResponse {
                            status: Status::Success,
                            body: ResMe {
                                id: to_unsigned(user.id),
                                email: user.email,
                                firstname: user.firstname,
                                lastname: user.lastname,
                            },
                        },
                    ),
                ),
            ),
            Outcome::Store(StoreReply::Found(None)) => (
                done,
                Step::Finish(Err(ErrorResponse::new(ErrorKind::NotFound, "User not found"))),
            ),
            Outcome::Store(StoreReply::Failed(detail)) => (
                done,
                Step::Finish(Err(ErrorResponse::internal("Database error: ", detail.as_str()))),
            ),
            _ => (done, Step::Finish(Err(out_of_step_error()))),
        }
    }
}

} // verus!
