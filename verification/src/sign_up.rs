//! Sign-up: a new user is stored, inside one transaction, unless the email
//! is taken.

use vstd::prelude::*;
use crate::entities::{NewUser, NewUserView};
use crate::flow::{
    out_of_step, out_of_step_error, Effect, EffectView, Outcome, OutcomeView, Step, StepView,
};
use crate::http::{
    answer, internal_failure, ErrorKind, ErrorResponse, ErrorView, Response, Status,
    SuccessResponse,
};
use crate::store::{StoreReply, StoreReplyView, StoreRequest, StoreRequestView};
use crate::text::copy_opt;
use crate::value_object::auth::{ReqSignUp, ReqSignUpView};

verus! {

/// The failure of a sign-up for an email that is stored already.
pub open spec fn duplicate_email() -> ErrorView {
    ErrorView {
        kind: ErrorKind::DuplicateEmail,
        message: "An account exists with this email address"@,
    }
}

/// The answer of a successful sign-up.
pub open spec fn account_created() -> (Status, Seq<char>) {
    (Status::Created, "Account created successfully!"@)
}

/// Where a sign-up stands.
#[derive(Clone, Copy, Debug, PartialEq, Eq, Structural)]
pub enum SignUpPhase {
    /// The transaction is being opened.
    Opening,
    /// The email is being looked up.
    Looking,
    /// The password is being hashed.
    Hashing,
    /// The user is being stored.
    Storing,
    /// The transaction is being committed.
    Closing,
    /// The transaction is being rolled back after a failure.
    Undoing,
    /// The response was given.
    Finished,
}

/// A sign-up under way.
#[derive(Debug)]
pub struct SignUp {
    pub phase: SignUpPhase,
    pub data: ReqSignUp,
    /// The failure to answer with once the transaction is rolled back.
    pub pending: Option<ErrorResponse>,
}

/// A `SignUp` as a plain value.
pub struct SignUpView {
    pub phase: SignUpPhase,
    pub data: ReqSignUpView,
    pub pending: Option<ErrorView>,
}

impl View for SignUp {
    type V = SignUpView;

    open spec fn view(&self) -> SignUpView {
        SignUpView {
            phase: self.phase,
            data: self.data@,
            pending: match self.pending {
                Some(e) => Some(e@),
                None => None,
            },
        }
    }
}

/// The user that a sign-up stores once the password is hashed.
pub open spec fn user_to_store(data: ReqSignUpView, digest: Seq<char>) -> NewUserView {
    NewUserView {
        email: data.email,
        password: digest,
        firstname: data.firstname,
        lastname: data.lastname,
    }
}

impl SignUpView {
    /// The flow in another phase.
    pub open spec fn at(self, phase: SignUpPhase) -> SignUpView {
        SignUpView { phase, ..self }
    }

    /// The flow rolls the transaction back and keeps the failure for the
    /// answer that follows.
    pub open spec fn undo(self, failure: ErrorView) -> (SignUpView, StepView<Seq<char>>) {
        (
            SignUpView { phase: SignUpPhase::Undoing, pending: Some(failure), ..self },
            StepView::Perform(EffectView::Store(StoreRequestView::Rollback)),
        )
    }

    /// The flow ends with a response.
    pub open spec fn finish(self, response: Result<(Status, Seq<char>), ErrorView>) -> (
        SignUpView,
        StepView<Seq<char>>,
    ) {
        (
            SignUpView { phase: SignUpPhase::Finished, pending: None, ..self },
            StepView::Finish(response),
        )
    }

    /// What a sign-up does with an outcome.
    ///
    /// It opens a transaction, looks the email up, has the password hashed,
    /// stores the user and commits, in this order. A stored email ends it
    /// with `DuplicateEmail`; a failure of the store or of the hasher ends it
    /// with `InternalFailure`. Once the transaction is open every failure is
    /// answered only after a rollback was asked for. No token is issued.
    pub open spec fn step(self, outcome: OutcomeView) -> (SignUpView, StepView<Seq<char>>) {
        match self.phase {
            SignUpPhase::Opening => match outcome {
                OutcomeView::Store(StoreReplyView::Done) => (
                    self.at(SignUpPhase::Looking),
                    StepView::Perform(
                        EffectView::Store(StoreRequestView::FindByEmail(self.data.email)),
                    ),
                ),
                OutcomeView::Store(StoreReplyView::Failed(detail)) => self.finish(
                    Err(internal_failure("Database error: "@, detail)),
                ),
                _ => self.finish(Err(out_of_step())),
            },
            SignUpPhase::Looking => match outcome {
                OutcomeView::Store(StoreReplyView::Found(Some(_))) => self.undo(duplicate_email()),
                OutcomeView::Store(StoreReplyView::Found(None)) => (
                    self.at(SignUpPhase::Hashing),
                    StepView::Perform(EffectView::Hash(self.data.password)),
                ),
                OutcomeView::Store(StoreReplyView::Failed(detail)) => self.undo(
                    internal_failure("Database error: "@, detail),
                ),
                _ => self.undo(out_of_step()),
            },
            SignUpPhase::Hashing => match outcome {
                OutcomeView::Hashed(Ok(digest)) => (
                    self.at(SignUpPhase::Storing),
                    StepView::Perform(
                        EffectView::Store(StoreRequestView::Insert(user_to_store(self.data, digest))),
                    ),
                ),
                OutcomeView::Hashed(Err(detail)) => self.undo(
                    internal_failure("Password hashing error: "@, detail),
                ),
                _ => self.undo(out_of_step()),
            },
            SignUpPhase::Storing => match outcome {
                OutcomeView::Store(StoreReplyView::Inserted(_)) => (
                    self.at(SignUpPhase::Closing),
                    StepView::Perform(EffectView::Store(StoreRequestView::Commit)),
                ),
                OutcomeView::Store(StoreReplyView::Failed(detail)) => self.undo(
                    internal_failure("Failed to create account: "@, detail),
                ),
                _ => self.undo(out_of_step()),
            },
            SignUpPhase::Closing => match outcome {
                OutcomeView::Store(StoreReplyView::Done) => self.finish(Ok(account_created())),
                OutcomeView::Store(StoreReplyView::Failed(detail)) => self.undo(
                    internal_failure("Transaction commit error: "@, detail),
                ),
                _ => self.undo(out_of_step()),
            },
            SignUpPhase::Undoing => match self.pending {
                Some(failure) => self.finish(Err(failure)),
                None => self.finish(Err(out_of_step())),
            },
            SignUpPhase::Finished => self.finish(Err(out_of_step())),
        }
    }
}

/// How a sign-up begins: by opening a transaction.
pub open spec fn sign_up_start(data: ReqSignUpView) -> (SignUpView, StepView<Seq<char>>) {
    (
        SignUpView { phase: SignUpPhase::Opening, data, pending: None },
        StepView::Perform(EffectView::Store(StoreRequestView::Begin)),
    )
}

impl SignUp {
    /// Starts a sign-up.
    pub fn start(data: ReqSignUp) -> (started: (SignUp, Step<String>))
        ensures
            (started.0@, started.1@) == sign_up_start(data@),
    {
        (
            SignUp { phase: SignUpPhase::Opening, data, pending: None },
            Step::Perform(Effect::Store(StoreRequest::Begin)),
        )
    }

    fn undo(self, failure: ErrorResponse) -> (next: (SignUp, Step<String>))
        ensures
            (next.0@, next.1@) == self@.undo(failure@),
    {
        (
            SignUp { phase: SignUpPhase::Undoing, data: self.data, pending: Some(failure) },
            Step::Perform(Effect::Store(StoreRequest::Rollback)),
        )
    }

    fn finish(self, response: Response<String>) -> (next: (SignUp, Step<String>))
        ensures
            next.0@ == self@.finish(answer(response)).0,
            next.1@ == self@.finish(answer(response)).1,
    {
        (
            SignUp { phase: SignUpPhase::Finished, data: self.data, pending: None },
            Step::Finish(response),
        )
    }

    fn at(self, phase: SignUpPhase, effect: Effect) -> (next: (SignUp, Step<String>))
        ensures
            next.0@ == self@.at(phase),
            next.1@ == StepView::<Seq<char>>::Perform(effect@),
    {
        (SignUp { phase, data: self.data, pending: self.pending }, Step::Perform(effect))
    }

    /// Takes the outcome of the effect that the flow asked for and says what
    /// comes next.
    pub fn step(self, outcome: Outcome) -> (next: (SignUp, Step<String>))
        ensures
            (next.0@, next.1@) == self@.step(outcome@),
    {
        match self.phase {
            SignUpPhase::Opening => match outcome {
                Outcome::Store(StoreReply::Done) => {
                    let email = self.data.email.clone();
                    self.at(
                        SignUpPhase::Looking,
                        Effect::Store(StoreRequest::FindByEmail(email)),
                    )
                },
                Outcome::Store(StoreReply::Failed(detail)) => self.finish(
                    Err(ErrorResponse::internal("Database error: ", detail.as_str())),
                ),
                _ => self.finish(Err(out_of_step_error())),
            },
            SignUpPhase::Looking => match outcome {
                Outcome::Store(StoreReply::Found(Some(_))) => self.undo(
                    ErrorResponse::new(
                        ErrorKind::DuplicateEmail,
                        "An account exists with this email address",
                    ),
                ),
                Outcome::Store(StoreReply::Found(None)) => {
                    let plaintext = self.data.password.clone();
                    self.at(SignUpPhase::Hashing, Effect::Hash(plaintext))
                },
                Outcome::Store(StoreReply::Failed(detail)) => self.undo(
                    ErrorResponse::internal("Database error: ", detail.as_str()),
                ),
                _ => self.undo(out_of_step_error()),
            },
            SignUpPhase::Hashing => match outcome {
                Outcome::Hashed(Ok(digest)) => {
                    let user = NewUser {
                        email: self.data.email.clone(),
                        password: digest,
                        firstname: copy_opt(&self.data.firstname),
                        lastname: copy_opt(&self.data.lastname),
                    };
                    self.at(SignUpPhase::Storing, Effect::Store(StoreRequest::Insert(user)))
                },
                Outcome::Hashed(Err(e)) => self.undo(
                    ErrorResponse::internal("Password hashing error: ", e.detail.as_str()),
                ),
                _ => self.undo(out_of_step_error()),
            },
            SignUpPhase::Storing => match outcome {
                Outcome::Store(StoreReply::Inserted(_)) => self.at(
                    SignUpPhase::Closing,
                    Effect::Store(StoreRequest::Commit),
                ),
                Outcome::Store(StoreReply::Failed(detail)) => self.undo(
                    ErrorResponse::internal("Failed to create account: ", detail.as_str()),
                ),
                _ => self.undo(out_of_step_error()),
            },
            SignUpPhase::Closing => match outcome {
                Outcome::Store(StoreReply::Done) => self.finish(
                    Ok(
                        SuccessResponse {
                            status: Status::Created,
                            body: "Account created successfully!".to_string(),
                        },
                    ),
                ),
                Outcome::Store(StoreReply::Failed(detail)) => self.undo(
                    ErrorResponse::internal("Transaction commit error: ", detail.as_str()),
                ),
                _ => self.undo(out_of_step_error()),
            },
            SignUpPhase::Undoing => {
                let SignUp { phase, data, pending } = self;
                let failure = match pending {
                    Some(failure) => failure,
                    None => out_of_step_error(),
                };
                (
                    SignUp { phase: SignUpPhase::Finished, data, pending: None },
                    Step::Finish(Err(failure)),
                )
            },
            SignUpPhase::Finished => self.finish(Err(out_of_step_error())),
        }
    }
}

impl SignUpPhase {
    /// How many effects a sign-up in this phase can still ask for.
    pub open spec fn rank(self) -> nat {
        match self {
            SignUpPhase::Opening => 6,
            SignUpPhase::Looking => 5,
            SignUpPhase::Hashing => 4,
            SignUpPhase::Storing => 3,
            SignUpPhase::Closing => 2,
            SignUpPhase::Undoing => 1,
            SignUpPhase::Finished => 0,
        }
    }

    /// Whether the transaction is open in this phase.
    pub open spec fn in_transaction(self) -> bool {
        self == SignUpPhase::Looking || self == SignUpPhase::Hashing || self == SignUpPhase::Storing
            || self == SignUpPhase::Closing
    }
}

/// Every step ends the flow or moves it to a later phase, so a sign-up asks
/// for at most six effects.
pub proof fn lemma_sign_up_advances(flow: SignUpView, outcome: OutcomeView)
    ensures
        flow.step(outcome).1 is Finish ==> flow.step(outcome).0.phase == SignUpPhase::Finished,
        flow.step(outcome).1 is Perform ==> flow.step(outcome).0.phase.rank() < flow.phase.rank(),
{
}

/// While the transaction is open no step answers with a failure: the failure
/// is kept, a rollback is asked for, and the step that follows the rollback
/// answers with that failure, whatever came of the rollback. The only answer
/// given while the transaction is open is the confirmation, after a commit.
pub proof fn lemma_failure_follows_rollback(
    flow: SignUpView,
    outcome: OutcomeView,
    rollback_outcome: OutcomeView,
)
    requires
        flow.phase.in_transaction(),
    ensures
        flow.step(outcome).1 is Finish ==> flow.phase == SignUpPhase::Closing && outcome
            == OutcomeView::Store(StoreReplyView::Done) && flow.step(outcome).1
            == StepView::<Seq<char>>::Finish(Ok(account_created())),
        flow.step(outcome).1 == StepView::<Seq<char>>::Perform(
            EffectView::Store(StoreRequestView::Rollback),
        ) ==> (flow.step(outcome).0.pending matches Some(failure) && flow.step(outcome).0.step(
            rollback_outcome,
        ).1 == StepView::<Seq<char>>::Finish(Err(failure))),
{
}

/// A user is stored only once the email was found free and the password was
/// hashed: the store is asked to insert in answer to a digest and to nothing
/// else, and what it is asked to keep as the password is that digest.
pub proof fn lemma_insert_carries_digest(flow: SignUpView, outcome: OutcomeView)
    ensures
        flow.step(outcome).1 matches StepView::Perform(
            EffectView::Store(StoreRequestView::Insert(user)),
        ) ==> flow.phase == SignUpPhase::Hashing && outcome == OutcomeView::Hashed(
            Ok(user.password),
        ) && user == user_to_store(flow.data, user.password),
{
}

/// A sign-up never asks for a token or for the clock.
pub proof fn lemma_sign_up_issues_no_token(flow: SignUpView, outcome: OutcomeView)
    ensures
        !(flow.step(outcome).1 matches StepView::Perform(EffectView::Sign(_))),
        !(flow.step(outcome).1 matches StepView::Perform(EffectView::ReadClock)),
        !(flow.step(outcome).1 matches StepView::Perform(EffectView::Verify(_, _))),
{
}

} // verus!
