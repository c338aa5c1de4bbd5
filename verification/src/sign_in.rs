//! Sign-in: an email and a password are exchanged for a token that is valid
//! for four hours.

use vstd::prelude::*;
use crate::flow::{
    out_of_step, out_of_step_error, Effect, EffectView, Outcome, OutcomeView, Step, StepView,
};
use crate::http::{
    internal_failure, ErrorKind, ErrorResponse, ErrorView, Response, Status, SuccessResponse,
};
use crate::store::{StoreReply, StoreReplyView, StoreRequest, StoreRequestView};
use crate::token::{claims_at, Claims, TOKEN_VALIDITY_SECS};
use crate::value_object::auth::{ReqSignIn, ResSignIn};

verus! {

/// The role that every issued token carries.
pub open spec fn user_role() -> Seq<char> {
    "user"@
}

/// The failure of a sign-in, for an unknown email and for a wrong password
/// alike.
pub open spec fn invalid_credentials() -> ErrorView {
    ErrorView { kind: ErrorKind::InvalidCredentials, message: "Email or password is incorrect"@ }
}

fn invalid_credentials_error() -> (e: ErrorResponse)
    ensures
        e@ == invalid_credentials(),
{
    ErrorResponse::new(ErrorKind::InvalidCredentials, "Email or password is incorrect")
}

/// Where a sign-in stands.
#[derive(Clone, Copy, Debug, PartialEq, Eq, Structural)]
pub enum SignInPhase {
    /// The email is being looked up.
    Looking,
    /// The password is being checked against the stored digest.
    Verifying,
    /// The clock is being read.
    Timing,
    /// The token is being issued.
    Signing,
    /// The response was given.
    Finished,
}

/// A sign-in under way. `subject` is the id of the user that the email
/// belongs to, once it was found.
#[derive(Debug)]
pub struct SignIn {
    pub phase: SignInPhase,
    pub email: String,
    pub password: String,
    pub subject: i32,
}

/// A `SignIn` as a plain value.
pub struct SignInView {
    pub phase: SignInPhase,
    pub email: Seq<char>,
    pub password: Seq<char>,
    pub subject: int,
}

impl View for SignIn {
    type V = SignInView;

    open spec fn view(&self) -> SignInView {
        SignInView {
            phase: self.phase,
            email: self.email@,
            password: self.password@,
            subject: self.subject as int,
        }
    }
}

impl SignInView {
    /// The flow in another phase.
    pub open spec fn at(self, phase: SignInPhase) -> SignInView {
        SignInView { phase, ..self }
    }

    /// The flow ends with a response.
    pub open spec fn finish(self, response: Result<(Status, Seq<char>), ErrorView>) -> (
        SignInView,
        StepView<Seq<char>>,
    ) {
        (self.at(SignInPhase::Finished), StepView::Finish(response))
    }

    /// What a sign-in does with an outcome.
    ///
    /// It looks the email up, has the password checked against the stored
    /// digest, reads the clock and has a token issued for the user's id, the
    /// role `user` and an expiry four hours after the reading. An unknown
    /// email and a wrong password end it with one and the same
    /// `InvalidCredentials`; a failure of the store, the hasher, the clock
    /// or the codec ends it with `InternalFailure`.
    pub open spec fn step(self, outcome: OutcomeView) -> (SignInView, StepView<Seq<char>>) {
        match self.phase {
            SignInPhase::Looking => match outcome {
                OutcomeView::Store(StoreReplyView::Found(Some(user))) => (
                    SignInView { phase: SignInPhase::Verifying, subject: user.id, ..self },
                    StepView::Perform(EffectView::Verify(self.password, user.password)),
                ),
                OutcomeView::Store(StoreReplyView::Found(None)) => self.finish(
                    Err(invalid_credentials()),
                ),
                OutcomeView::Store(StoreReplyView::Failed(detail)) => self.finish(
                    Err(internal_failure("Database error: "@, detail)),
                ),
                _ => self.finish(Err(out_of_step())),
            },
            SignInPhase::Verifying => match outcome {
                OutcomeView::Verified(Ok(true)) => (
                    self.at(SignInPhase::Timing),
                    StepView::Perform(EffectView::ReadClock),
                ),
                OutcomeView::Verified(Ok(false)) => self.finish(Err(invalid_credentials())),
                OutcomeView::Verified(Err(detail)) => self.finish(
                    Err(internal_failure("Password verification error: "@, detail)),
                ),
                _ => self.finish(Err(out_of_step())),
            },
            SignInPhase::Timing => match outcome {
                OutcomeView::Clock(Ok(now)) => {
                    if now + TOKEN_VALIDITY_SECS <= u64::MAX {
                        (
                            self.at(SignInPhase::Signing),
                            StepView::Perform(
                                EffectView::Sign(claims_at(self.subject, user_role(), now)),
                            ),
                        )
                    } else {
                        self.finish(
                            Err(
                                internal_failure(
                                    "Time error: "@,
                                    "the expiry lies beyond the end of time"@,
                                ),
                            ),
                        )
                    }
                },
                OutcomeView::Clock(Err(detail)) => self.finish(
                    Err(internal_failure("Time error: "@, detail)),
                ),
                _ => self.finish(Err(out_of_step())),
            },
            SignInPhase::Signing => match outcome {
                OutcomeView::Signed(Ok(token)) => self.finish(Ok((Status::Success, token))),
                OutcomeView::Signed(Err(detail)) => self.finish(
                    Err(internal_failure("Token generation error: "@, detail)),
                ),
                _ => self.finish(Err(out_of_step())),
            },
            SignInPhase::Finished => self.finish(Err(out_of_step())),
        }
    }
}

/// How a sign-in begins: by looking the email up.
pub open spec fn sign_in_start(email: Seq<char>, password: Seq<char>) -> (
    SignInView,
    StepView<Seq<char>>,
) {
    (
        SignInView { phase: SignInPhase::Looking, email, password, subject: 0 },
        StepView::Perform(EffectView::Store(StoreRequestView::FindByEmail(email))),
    )
}

impl SignIn {
    /// Starts a sign-in.
    pub fn start(data: ReqSignIn) -> (started: (SignIn, Step<ResSignIn>))
        ensures
            (started.0@, started.1@) == sign_in_start(data.email@, data.password@),
    {
        let lookup = data.email.clone();
        (
            SignIn {
                phase: SignInPhase::Looking,
                email: data.email,
                password: data.password,
                subject: 0,
            },
            Step::Perform(Effect::Store(StoreRequest::FindByEmail(lookup))),
        )
    }

    fn finish(self, response: Response<ResSignIn>) -> (next: (SignIn, Step<ResSignIn>))
        ensures
            (next.0@, next.1@) == self@.finish(crate::http::answer(response)),
    {
        (
            SignIn {
                phase: SignInPhase::Finished,
                email: self.email,
                password: self.password,
                subject: self.subject,
            },
            Step::Finish(response),
        )
    }

    fn at(self, phase: SignInPhase, effect: Effect) -> (next: (SignIn, Step<ResSignIn>))
        ensures
            next.0@ == self@.at(phase),
            next.1@ == StepView::<Seq<char>>::Perform(effect@),
    {
        (
            SignIn { phase, email: self.email, password: self.password, subject: self.subject },
            Step::Perform(effect),
        )
    }

    /// Takes the outcome of the effect that the flow asked for and says what
    /// comes next.
    pub fn step(self, outcome: Outcome) -> (next: (SignIn, Step<ResSignIn>))
        ensures
            (next.0@, next.1@) == self@.step(outcome@),
    {
        match self.phase {
            SignInPhase::Looking => match outcome {
                Outcome::Store(StoreReply::Found(Some(user))) => {
                    let plaintext = self.password.clone();
                    (
                        SignIn {
                            phase: SignInPhase::Verifying,
                            email: self.email,
                            password: self.password,
                            subject: user.id,
                        },
                        Step::Perform(Effect::Verify(plaintext, user.password)),
                    )
                },
                Outcome::Store(StoreReply::Found(None)) => self.finish(
                    Err(invalid_credentials_error()),
                ),
                Outcome::Store(StoreReply::Failed(detail)) => self.finish(
                    Err(ErrorResponse::internal("Database error: ", detail.as_str())),
                ),
                _ => self.finish(Err(out_of_step_error())),
            },
            SignInPhase::Verifying => match outcome {
                Outcome::Verified(Ok(true)) => self.at(SignInPhase::Timing, Effect::ReadClock),
                Outcome::Verified(Ok(false)) => self.finish(Err(invalid_credentials_error())),
                Outcome::Verified(Err(e)) => self.finish(
                    Err(ErrorResponse::internal("Password verification error: ", e.detail.as_str())),
                ),
                _ => self.finish(Err(out_of_step_error())),
            },
            SignInPhase::Timing => match outcome {
                Outcome::Clock(Ok(now)) => match now.checked_add(TOKEN_VALIDITY_SECS) {
                    Some(exp) => {
                        let claims = Claims { sub: self.subject, role: "user".to_string(), exp };
                        self.at(SignInPhase::Signing, Effect::Sign(claims))
                    },
                    None => self.finish(
                        Err(
                            ErrorResponse::internal(
                                "Time error: ",
                                "the expiry lies beyond the end of time",
                            ),
                        ),
                    ),
                },
                Outcome::Clock(Err(e)) => self.finish(
                    Err(ErrorResponse::internal("Time error: ", e.detail.as_str())),
                ),
                _ => self.finish(Err(out_of_step_error())),
            },
            SignInPhase::Signing => match outcome {
                Outcome::Signed(Ok(token)) => self.finish(
                    Ok(SuccessResponse { status: Status::Success, body: ResSignIn { token } }),
                ),
                Outcome::Signed(Err(e)) => self.finish(
                    Err(ErrorResponse::internal("Token generation error: ", e.detail.as_str())),
                ),
                _ => self.finish(Err(out_of_step_error())),
            },
            SignInPhase::Finished => self.finish(Err(out_of_step_error())),
        }
    }
}

impl SignInPhase {
    /// How many effects a sign-in in this phase can still ask for.
    pub open spec fn rank(self) -> nat {
        match self {
            SignInPhase::Looking => 4,
            SignInPhase::Verifying => 3,
            SignInPhase::Timing => 2,
            SignInPhase::Signing => 1,
            SignInPhase::Finished => 0,
        }
    }
}

/// Every step ends the flow or moves it to a later phase, so a sign-in asks
/// for at most four effects.
pub proof fn lemma_sign_in_advances(flow: SignInView, outcome: OutcomeView)
    ensures
        flow.step(outcome).1 is Finish ==> flow.step(outcome).0.phase == SignInPhase::Finished,
        flow.step(outcome).1 is Perform ==> flow.step(outcome).0.phase.rank() < flow.phase.rank(),
{
}

/// After the lookup a sign-in asks nothing more of the store: it reads one
/// user and writes nothing.
pub proof fn lemma_sign_in_writes_nothing(flow: SignInView, outcome: OutcomeView)
    ensures
        !(flow.step(outcome).1 matches StepView::Perform(EffectView::Store(_))),
        !(flow.step(outcome).1 matches StepView::Perform(EffectView::Hash(_))),
{
}

/// A token is asked for only after the stored digest accepted the password
/// and the clock was read: for the user that was found, the role `user` and
/// an expiry four hours after the reading.
pub proof fn lemma_token_follows_verification(flow: SignInView, outcome: OutcomeView)
    ensures
        flow.step(outcome).1 matches StepView::Perform(EffectView::Sign(claims)) ==> ({
            &&& flow.phase == SignInPhase::Timing
            &&& outcome matches OutcomeView::Clock(Ok(now))
            &&& claims == claims_at(flow.subject, user_role(), now)
        }),
        flow.step(outcome).1 is Perform && flow.step(outcome).0.phase == SignInPhase::Timing
            ==> outcome == OutcomeView::Verified(Ok(true)),
{
}

/// An unknown email and a refused password end a sign-in with the same
/// response, and with no other effect asked for.
pub proof fn lemma_sign_in_refusals_alike(looking: SignInView, verifying: SignInView)
    requires
        looking.phase == SignInPhase::Looking,
        verifying.phase == SignInPhase::Verifying,
    ensures
        looking.step(OutcomeView::Store(StoreReplyView::Found(None))).1 == verifying.step(
            OutcomeView::Verified(Ok(false)),
        ).1,
        looking.step(OutcomeView::Store(StoreReplyView::Found(None))).1 == StepView::<
            Seq<char>,
        >::Finish(Err(invalid_credentials())),
{
}

} // verus!
