//! An authentication repository that keeps its users in memory: the flows
//! of this library driven against a `MemoryUserStore`, what they come to,
//! and what follows for a user who signs up, signs in and asks who they are.

use vstd::prelude::*;
use crate::config::JwtSecret;
use crate::flow::{
    carry_out, may_come_of, out_of_step_error, Effect, EffectView, Outcome, OutcomeView, Step,
    StepView,
};
use crate::hasher::{bcrypt_verify_spec, digest_accepts};
use crate::http::{answer, internal_failure, ErrorKind, ErrorView, Response, Status};
use crate::identity::{profile_of, user_not_found, Identity};
use crate::jwt_auth::{as_signed, authenticate_spec, token_invalid, AuthenticatedUser};
use crate::repository::AuthRepository;
use crate::sign_in::{invalid_credentials, user_role, SignIn};
use crate::sign_up::{
    account_created, duplicate_email, user_to_store, SignUp, SignUpPhase, SignUpView,
};
use crate::store::{
    lemma_by_email_unique, lemma_email_held_once, lemma_perform_keeps_wf, lemma_removed_is_gone,
    stored_as, MemoryUserStore, StoreModel, StoreRequestView,
};
use crate::token::{carries, claims_at, jwt_encode_spec, validate_spec, TOKEN_VALIDITY_SECS};
use crate::value_object::auth::{ReqSignIn, ReqSignUp, ReqSignUpView, ResMe, ResMeView, ResSignIn};

verus! {

/// What hashing may give for a password: every digest is accepted for it.
pub open spec fn hash_fits(hashed: Result<Seq<char>, Seq<char>>, password: Seq<char>) -> bool {
    hashed matches Ok(digest) ==> digest_accepts(digest, password)
}

/// The store after a sign-up and the response to it, for the outcome of
/// hashing the password.
///
/// An email that is stored already fails with `DuplicateEmail` and the store
/// is as before. Otherwise the user is stored under the next id with the
/// digest as password, and the answer is the confirmation; where hashing
/// failed or no id is left the store is as before and the failure is
/// internal.
pub open spec fn sign_up_outcome(
    store: StoreModel,
    data: ReqSignUpView,
    hashed: Result<Seq<char>, Seq<char>>,
) -> (StoreModel, Result<(Status, Seq<char>), ErrorView>) {
    if store.has_email(data.email) {
        (store, Err(duplicate_email()))
    } else {
        match hashed {
            Err(detail) => (store, Err(internal_failure("Password hashing error: "@, detail))),
            Ok(digest) => {
                if store.next_id >= i32::MAX {
                    (
                        store,
                        Err(internal_failure("Failed to create account: "@, "no user id is left"@)),
                    )
                } else {
                    (
                        StoreModel {
                            users: store.users.push(
                                stored_as(user_to_store(data, digest), store.next_id),
                            ),
                            next_id: store.next_id + 1,
                            ..store
                        },
                        Ok(account_created()),
                    )
                }
            },
        }
    }
}

/// The response to a sign-in for what the clock gave.
///
/// An email that is not stored and a password that the stored digest does
/// not accept give the same `InvalidCredentials`. Accepted credentials give
/// the token that the codec issues for the user's id, the role `user` and
/// the expiry four hours after the clock's reading. `verify_detail` and
/// `issue_detail` are the texts of the hasher's and the codec's failure
/// where they fail.
pub open spec fn sign_in_outcome(
    store: StoreModel,
    email: Seq<char>,
    password: Seq<char>,
    secret: Seq<char>,
    clock: Result<int, Seq<char>>,
    verify_detail: Seq<char>,
    issue_detail: Seq<char>,
) -> Result<(Status, Seq<char>), ErrorView> {
    match store.by_email(email) {
        None => Err(invalid_credentials()),
        Some(user) => match bcrypt_verify_spec(password, user.password) {
            None => Err(internal_failure("Password verification error: "@, verify_detail)),
            Some(false) => Err(invalid_credentials()),
            Some(true) => match clock {
                Err(detail) => Err(internal_failure("Time error: "@, detail)),
                Ok(now) => {
                    if now + TOKEN_VALIDITY_SECS > u64::MAX {
                        Err(
                            internal_failure(
                                "Time error: "@,
                                "the expiry lies beyond the end of time"@,
                            ),
                        )
                    } else {
                        match jwt_encode_spec(
                            user.id,
                            user_role(),
                            now + TOKEN_VALIDITY_SECS,
                            secret,
                        ) {
                            Some(token) => Ok((Status::Success, token)),
                            None => Err(
                                internal_failure("Token generation error: "@, issue_detail),
                            ),
                        }
                    }
                },
            },
        },
    }
}

/// Whether a response is the one that a sign-in gives for what the clock,
/// the hasher and the codec gave. A token in it carries, under the secret,
/// the claims of the user that the email belongs to, issued at the clock's
/// reading.
pub open spec fn signed_in(
    store: StoreModel,
    email: Seq<char>,
    password: Seq<char>,
    secret: Seq<char>,
    clock: Result<int, Seq<char>>,
    verify_detail: Seq<char>,
    issue_detail: Seq<char>,
    response: Result<(Status, Seq<char>), ErrorView>,
) -> bool {
    &&& clock matches Ok(now) ==> 0 <= now <= u64::MAX
    &&& response == sign_in_outcome(
        store,
        email,
        password,
        secret,
        clock,
        verify_detail,
        issue_detail,
    )
    &&& response matches Ok(success) ==> {
        &&& clock is Ok
        &&& store.by_email(email) matches Some(user)
        &&& carries(success.1, claims_at(user.id, user_role(), clock->Ok_0), secret)
    }
}

/// The response to an identity lookup: the profile of the stored user with
/// the identity's id, or `NotFound` where no such user is stored.
pub open spec fn me_outcome(store: StoreModel, user: AuthenticatedUser) -> Result<
    (Status, ResMeView),
    ErrorView,
> {
    match store.by_id(as_signed(user.id as int)) {
        Some(found) => Ok((Status::Success, profile_of(found))),
        None => Err(user_not_found()),
    }
}

/// An authentication repository that keeps its users in memory: the flows of
/// this library, driven against a `MemoryUserStore`.
#[derive(Debug)]
pub struct MemoryAuthRepository {
    pub store: MemoryUserStore,
    pub secret: JwtSecret,
}

impl MemoryAuthRepository {
    /// The invariant between operations: the store is well-formed and no
    /// transaction is open.
    pub open spec fn wf(&self) -> bool {
        self.store.wf() && self.store@.open_at is None
    }

    /// A repository without users that signs tokens with the given secret.
    pub fn new(secret: JwtSecret) -> (repository: MemoryAuthRepository)
        ensures
            repository.wf(),
            repository.store@ == StoreModel::empty(),
            repository.secret == secret,
    {
        MemoryAuthRepository { store: MemoryUserStore::new(), secret }
    }

    /// Has an effect performed: a request by the store, everything else
    /// here. With `fixed_now` the clock reads that time.
    fn perform(&mut self, effect: Effect, fixed_now: Option<u64>) -> (outcome: Outcome)
        requires
            old(self).store.wf(),
        ensures
            final(self).store.wf(),
            final(self).secret == old(self).secret,
            match effect@ {
                EffectView::Store(request) => {
                    &&& final(self).store@ == old(self).store@.perform(request).0
                    &&& outcome@ == OutcomeView::Store(old(self).store@.perform(request).1)
                },
                _ => {
                    &&& final(self).store@ == old(self).store@
                    &&& may_come_of(effect@, old(self).secret.jwt_secret@, outcome@)
                    &&& (effect@ is ReadClock && fixed_now is Some ==> outcome@
                        == OutcomeView::Clock(Ok(fixed_now->0 as int)))
                },
            },
    {
        match (&effect, fixed_now) {
            (Effect::ReadClock, Some(now)) => Outcome::Clock(Ok(now)),
            _ => match carry_out(effect, &self.secret) {
                Ok(outcome) => outcome,
                Err(request) => Outcome::Store(self.store.perform(request)),
            },
        }
    }

    /// Runs a sign-in against the store. With `fixed_now` the clock reads
    /// that time.
    fn sign_in_with(&mut self, sign_in_data: ReqSignIn, fixed_now: Option<u64>) -> (res: Response<
        ResSignIn,
    >)
        requires
            old(self).wf(),
        ensures
            final(self).wf(),
            final(self).secret == old(self).secret,
            final(self).store@ == old(self).store@,
            exists|clock: Result<int, Seq<char>>, verify_detail: Seq<char>, issue_detail: Seq<char>|
                (fixed_now matches Some(now) ==> clock == Ok::<int, Seq<char>>(now as int))
                    && #[trigger] signed_in(
                    old(self).store@,
                    sign_in_data.email@,
                    sign_in_data.password@,
                    old(self).secret.jwt_secret@,
                    clock,
                    verify_detail,
                    issue_detail,
                    answer(res),
                ),
    {
        let ghost store = self.store@;
        let ghost email = sign_in_data.email@;
        let ghost password = sign_in_data.password@;
        let ghost secret = self.secret.jwt_secret@;
        let ghost none: Seq<char> = Seq::empty();
        let ghost no_clock: Result<int, Seq<char>> = match fixed_now {
            Some(now) => Ok(now as int),
            None => Err(none),
        };
        let (flow, step) = SignIn::start(sign_in_data);
        // The email is looked up.
        let effect = match step {
            Step::Perform(effect) => effect,
            Step::Finish(res) => { return res; },
        };
        let outcome = self.perform(effect, fixed_now);
        let (flow, step) = flow.step(outcome);
        // The password is checked.
        let effect = match step {
            Step::Perform(effect) => effect,
            Step::Finish(res) => {
                assert(signed_in(store, email, password, secret, no_clock, none, none, answer(res)));
                return res;
            },
        };
        let outcome = self.perform(effect, fixed_now);
        let ghost verify_detail = match outcome@ {
            OutcomeView::Verified(Err(detail)) => detail,
            _ => none,
        };
        let (flow, step) = flow.step(outcome);
        // The clock is read.
        let effect = match step {
            Step::Perform(effect) => effect,
            Step::Finish(res) => {
                assert(signed_in(
                    store,
                    email,
                    password,
                    secret,
                    no_clock,
                    verify_detail,
                    none,
                    answer(res),
                ));
                return res;
            },
        };
        let outcome = self.perform(effect, fixed_now);
        let ghost clock = match outcome@ {
            OutcomeView::Clock(clock) => clock,
            _ => no_clock,
        };
        let (flow, step) = flow.step(outcome);
        // The token is issued.
        let effect = match step {
            Step::Perform(effect) => effect,
            Step::Finish(res) => {
                assert(signed_in(
                    store,
                    email,
                    password,
                    secret,
                    clock,
                    verify_detail,
                    none,
                    answer(res),
                ));
                return res;
            },
        };
        let outcome = self.perform(effect, fixed_now);
        let ghost issue_detail = match outcome@ {
            OutcomeView::Signed(Err(detail)) => detail,
            _ => none,
        };
        let (flow, step) = flow.step(outcome);
        match step {
            Step::Finish(res) => {
                assert(signed_in(
                    store,
                    email,
                    password,
                    secret,
                    clock,
                    verify_detail,
                    issue_detail,
                    answer(res),
                ));
                res
            },
            Step::Perform(_) => Err(out_of_step_error()),
        }
    }

    /// Runs a sign-in as if the clock read `now`.
    pub fn sign_in_at(&mut self, sign_in_data: ReqSignIn, now: u64) -> (res: Response<ResSignIn>)
        requires
            old(self).wf(),
        ensures
            final(self).wf(),
            final(self).secret == old(self).secret,
            final(self).store@ == old(self).store@,
            exists|verify_detail: Seq<char>, issue_detail: Seq<char>| #[trigger]
                signed_in(
                    old(self).store@,
                    sign_in_data.email@,
                    sign_in_data.password@,
                    old(self).secret.jwt_secret@,
                    Ok(now as int),
                    verify_detail,
                    issue_detail,
                    answer(res),
                ),
    {
        self.sign_in_with(sign_in_data, Some(now))
    }
}

impl AuthRepository for MemoryAuthRepository {
    open spec fn ready(&self) -> bool {
        self.wf()
    }

    open spec fn signs_up(
        pre: MemoryAuthRepository,
        data: ReqSignUp,
        post: MemoryAuthRepository,
        res: Response<String>,
    ) -> bool {
        &&& post.secret == pre.secret
        &&& exists|hashed: Result<Seq<char>, Seq<char>>|
            hash_fits(hashed, data@.password) && (post.store@, answer(res))
                == #[trigger] sign_up_outcome(pre.store@, data@, hashed)
    }

    open spec fn signs_in(
        pre: MemoryAuthRepository,
        data: ReqSignIn,
        post: MemoryAuthRepository,
        res: Response<ResSignIn>,
    ) -> bool {
        &&& post.secret == pre.secret
        &&& post.store@ == pre.store@
        &&& exists|
            clock: Result<int, Seq<char>>,
            verify_detail: Seq<char>,
            issue_detail: Seq<char>,
        | #[trigger]
            signed_in(
                pre.store@,
                data.email@,
                data.password@,
                pre.secret.jwt_secret@,
                clock,
                verify_detail,
                issue_detail,
                answer(res),
            )
    }

    open spec fn tells(
        pre: MemoryAuthRepository,
        user: AuthenticatedUser,
        post: MemoryAuthRepository,
        res: Response<ResMe>,
    ) -> bool {
        &&& post.secret == pre.secret
        &&& post.store@ == pre.store@
        &&& answer(res) == me_outcome(pre.store@, user)
    }

    /// Runs a sign-up against the store. Whatever the hasher gives, the
    /// store and the response are those of `sign_up_outcome` for it.
    fn sign_up(&mut self, register_data: ReqSignUp) -> (res: Response<String>)
    {
        let ghost before = self.store@;
        let ghost data = register_data@;
        let ghost unhashed: Result<Seq<char>, Seq<char>> = Err(Seq::empty());
        let (flow, step) = SignUp::start(register_data);
        // The transaction is opened.
        let effect = match step {
            Step::Perform(effect) => effect,
            Step::Finish(res) => { return res; },
        };
        let outcome = self.perform(effect, None);
        let (flow, step) = flow.step(outcome);
        // The email is looked up.
        let effect = match step {
            Step::Perform(effect) => effect,
            Step::Finish(res) => { return res; },
        };
        let outcome = self.perform(effect, None);
        let (flow, step) = flow.step(outcome);
        // The password is hashed, or the transaction rolled back.
        let effect = match step {
            Step::Perform(effect) => effect,
            Step::Finish(res) => { return res; },
        };
        let outcome = self.perform(effect, None);
        let ghost third = outcome@;
        let (flow, step) = flow.step(outcome);
        let ghost hashed = match third {
            OutcomeView::Hashed(hashed) => hashed,
            _ => unhashed,
        };
        assert(self.store@.users =~= before.users);
        // The user is stored.
        let effect = match step {
            Step::Perform(effect) => effect,
            Step::Finish(res) => {
                assert((self.store@, answer(res)) == sign_up_outcome(before, data, hashed));
                return res;
            },
        };
        let outcome = self.perform(effect, None);
        let (flow, step) = flow.step(outcome);
        assert(before.has_email(data.email) || hashed is Err ==> self.store@.users =~= before.users);
        // The transaction is committed.
        let effect = match step {
            Step::Perform(effect) => effect,
            Step::Finish(res) => {
                assert((self.store@, answer(res)) == sign_up_outcome(before, data, hashed));
                return res;
            },
        };
        let outcome = self.perform(effect, None);
        let (flow, step) = flow.step(outcome);
        assert(hashed is Ok && before.next_id >= i32::MAX ==> self.store@.users =~= before.users);
        match step {
            Step::Finish(res) => {
                assert((self.store@, answer(res)) == sign_up_outcome(before, data, hashed));
                res
            },
            Step::Perform(effect) => {
                let outcome = self.perform(effect, None);
                let (flow, step) = flow.step(outcome);
                match step {
                    Step::Finish(res) => {
                        assert((self.store@, answer(res)) == sign_up_outcome(before, data, hashed));
                        res
                    },
                    Step::Perform(_) => Err(out_of_step_error()),
                }
            },
        }
    }

    /// Runs a sign-in against the store at the time that the clock shows.
    fn sign_in(&mut self, sign_in_data: ReqSignIn) -> (res: Response<ResSignIn>) {
        self.sign_in_with(sign_in_data, None)
    }

    /// Runs an identity lookup against the store.
    fn me(&mut self, user: AuthenticatedUser) -> (res: Response<ResMe>) {
        let (flow, step) = Identity::start(user);
        let effect = match step {
            Step::Perform(effect) => effect,
            Step::Finish(res) => { return res; },
        };
        let outcome = self.perform(effect, None);
        let (flow, step) = flow.step(outcome);
        match step {
            Step::Finish(res) => res,
            Step::Perform(_) => Err(out_of_step_error()),
        }
    }
}

/// A sign-up leaves a well-formed store well-formed, whatever comes of it,
/// and never leaves a transaction open.
pub proof fn lemma_sign_up_keeps_wf(
    store: StoreModel,
    data: ReqSignUpView,
    hashed: Result<Seq<char>, Seq<char>>,
)
    requires
        store.wf(),
        store.open_at is None,
    ensures
        sign_up_outcome(store, data, hashed).0.wf(),
        sign_up_outcome(store, data, hashed).0.open_at is None,
{
    if !store.has_email(data.email) && hashed is Ok && store.next_id < i32::MAX {
        lemma_perform_keeps_wf(
            store,
            StoreRequestView::Insert(user_to_store(data, hashed->Ok_0)),
        );
    }
}

/// What a successful sign-up leaves behind: the store grew by one user, who
/// has the next id, the email and names of the request and a digest that
/// accepts the request's password; looking the email up finds this user.
pub proof fn lemma_sign_up_stores_the_user(
    store: StoreModel,
    data: ReqSignUpView,
    hashed: Result<Seq<char>, Seq<char>>,
)
    requires
        store.wf(),
        store.open_at is None,
        hash_fits(hashed, data.password),
        sign_up_outcome(store, data, hashed).1 is Ok,
    ensures
        ({
            let after = sign_up_outcome(store, data, hashed).0;
            &&& !store.has_email(data.email)
            &&& !store.has_id(store.next_id)
            &&& after.users.len() == store.users.len() + 1
            &&& after.by_email(data.email) matches Some(user)
            &&& after.by_email(data.email) == after.by_id(store.next_id)
            &&& user.id == store.next_id
            &&& user.email == data.email
            &&& user.firstname == data.firstname
            &&& user.lastname == data.lastname
            &&& digest_accepts(user.password, data.password)
            &&& after.holds_once(data.email)
        }),
{
    let after = sign_up_outcome(store, data, hashed).0;
    lemma_sign_up_keeps_wf(store, data, hashed);
    let at = store.users.len() as int;
    assert(after.users[at] == stored_as(user_to_store(data, hashed->Ok_0), store.next_id));
    assert(after.has_email(data.email));
    lemma_by_email_unique(after, at);
    lemma_email_held_once(after, data.email);
    assert(!store.has_id(store.next_id)) by {
        if store.has_id(store.next_id) {
            let k = choose|k: int|
                0 <= k < store.users.len() && (#[trigger] store.users[k]).id == store.next_id;
            assert(store.users[k].id < store.next_id);
        }
    }
}

/// A user who has signed up can sign in at once with the same credentials.
/// The sign-in asks the codec for a token for the new user's id; the token
/// it answers with is accepted under the secret at the time of the sign-in
/// and names the new user as its subject. The only way the sign-in can fail
/// is that the codec gives no token.
pub proof fn lemma_sign_in_after_sign_up(
    store: StoreModel,
    data: ReqSignUpView,
    hashed: Result<Seq<char>, Seq<char>>,
    secret: Seq<char>,
    now: int,
    verify_detail: Seq<char>,
    issue_detail: Seq<char>,
    response: Result<(Status, Seq<char>), ErrorView>,
)
    requires
        store.wf(),
        store.open_at is None,
        hash_fits(hashed, data.password),
        sign_up_outcome(store, data, hashed).1 is Ok,
        now + TOKEN_VALIDITY_SECS <= u64::MAX,
        signed_in(
            sign_up_outcome(store, data, hashed).0,
            data.email,
            data.password,
            secret,
            Ok(now),
            verify_detail,
            issue_detail,
            response,
        ),
    ensures
        response == match jwt_encode_spec(
            store.next_id,
            user_role(),
            now + TOKEN_VALIDITY_SECS,
            secret,
        ) {
            Some(token) => Ok::<(Status, Seq<char>), ErrorView>((Status::Success, token)),
            None => Err::<(Status, Seq<char>), ErrorView>(
                internal_failure("Token generation error: "@, issue_detail),
            ),
        },
        response matches Ok(success) ==> validate_spec(success.1, secret, now) matches Ok(claims)
            && claims.sub == store.next_id && sign_up_outcome(store, data, hashed).0.by_id(
            claims.sub,
        ) == sign_up_outcome(store, data, hashed).0.by_email(data.email),
{
    lemma_sign_up_stores_the_user(store, data, hashed);
}

/// A sign-up for an email that is stored already fails with `DuplicateEmail`
/// and changes nothing: the store holds exactly one user with that email,
/// before and after, whatever the request's password and names are.
pub proof fn lemma_duplicate_sign_up_changes_nothing(
    store: StoreModel,
    data: ReqSignUpView,
    hashed: Result<Seq<char>, Seq<char>>,
)
    requires
        store.wf(),
        store.has_email(data.email),
    ensures
        sign_up_outcome(store, data, hashed) == (
            store,
            Err::<(Status, Seq<char>), ErrorView>(duplicate_email()),
        ),
        store.holds_once(data.email),
{
    lemma_email_held_once(store, data.email);
}

/// Signing up twice with one email stores one user: the second sign-up
/// fails with `DuplicateEmail` and leaves the store as the first left it.
pub proof fn lemma_second_sign_up_is_refused(
    store: StoreModel,
    first: ReqSignUpView,
    first_hashed: Result<Seq<char>, Seq<char>>,
    second: ReqSignUpView,
    second_hashed: Result<Seq<char>, Seq<char>>,
)
    requires
        store.wf(),
        store.open_at is None,
        hash_fits(first_hashed, first.password),
        sign_up_outcome(store, first, first_hashed).1 is Ok,
        second.email == first.email,
    ensures
        ({
            let after = sign_up_outcome(store, first, first_hashed).0;
            &&& sign_up_outcome(after, second, second_hashed) == (
                after,
                Err::<(Status, Seq<char>), ErrorView>(duplicate_email()),
            )
            &&& after.holds_once(first.email)
        }),
{
    lemma_sign_up_stores_the_user(store, first, first_hashed);
    let after = sign_up_outcome(store, first, first_hashed).0;
    assert(after.has_email(second.email));
}

/// A sign-up that found the email free but comes to store its user after
/// another stored the same email stores nothing: the store refuses the
/// insert, the flow asks for a rollback and answers with an internal
/// failure, and the email is still stored exactly once.
pub proof fn lemma_late_insert_is_refused(
    store: StoreModel,
    flow: SignUpView,
    digest: Seq<char>,
    rollback_outcome: OutcomeView,
)
    requires
        store.wf(),
        flow.phase == SignUpPhase::Hashing,
        store.has_email(flow.data.email),
    ensures
        ({
            let user = user_to_store(flow.data, digest);
            let (storing, ask) = flow.step(OutcomeView::Hashed(Ok(digest)));
            let (after, reply) = store.perform(StoreRequestView::Insert(user));
            let (undoing, undo) = storing.step(OutcomeView::Store(reply));
            &&& ask == StepView::<Seq<char>>::Perform(
                EffectView::Store(StoreRequestView::Insert(user)),
            )
            &&& after == store
            &&& undo == StepView::<Seq<char>>::Perform(
                EffectView::Store(StoreRequestView::Rollback),
            )
            &&& undoing.step(rollback_outcome).1 == StepView::<Seq<char>>::Finish(
                Err(
                    internal_failure(
                        "Failed to create account: "@,
                        "the email is already stored"@,
                    ),
                ),
            )
            &&& store.holds_once(flow.data.email)
        }),
{
    lemma_email_held_once(store, flow.data.email);
}

/// A sign-in with an email that is not stored and a sign-in with a stored
/// email and a password that its digest does not accept fail alike: the same
/// kind, the same message, whatever the clock, the time and the secret are.
pub proof fn lemma_sign_in_failures_alike(
    store: StoreModel,
    unknown_email: Seq<char>,
    any_password: Seq<char>,
    known_email: Seq<char>,
    wrong_password: Seq<char>,
    secret: Seq<char>,
    clock: Result<int, Seq<char>>,
    other_clock: Result<int, Seq<char>>,
    verify_detail: Seq<char>,
    issue_detail: Seq<char>,
)
    requires
        !store.has_email(unknown_email),
        store.by_email(known_email) matches Some(user) && bcrypt_verify_spec(
            wrong_password,
            user.password,
        ) == Some(false),
    ensures
        sign_in_outcome(
            store,
            unknown_email,
            any_password,
            secret,
            clock,
            verify_detail,
            issue_detail,
        ) == Err::<(Status, Seq<char>), ErrorView>(invalid_credentials()),
        sign_in_outcome(
            store,
            known_email,
            wrong_password,
            secret,
            other_clock,
            verify_detail,
            issue_detail,
        ) == sign_in_outcome(
            store,
            unknown_email,
            any_password,
            secret,
            clock,
            verify_detail,
            issue_detail,
        ),
{
}

/// The token that a sign-in answers with authenticates its user for four
/// hours: presented at any time before the sign-in's time plus four hours it
/// gives the identity of the user that the email belongs to, presented at
/// that time or later it is rejected; and while it is accepted, the identity
/// lookup gives that user's profile.
pub proof fn lemma_sign_in_token_authenticates(
    store: StoreModel,
    email: Seq<char>,
    password: Seq<char>,
    secret: Seq<char>,
    now: int,
    verify_detail: Seq<char>,
    issue_detail: Seq<char>,
    response: Result<(Status, Seq<char>), ErrorView>,
    presented_at: int,
)
    requires
        store.wf(),
        response is Ok,
        signed_in(
            store,
            email,
            password,
            secret,
            Ok(now),
            verify_detail,
            issue_detail,
            response,
        ),
    ensures
        store.by_email(email) matches Some(user) && ({
            let identity = AuthenticatedUser { id: user.id as u32 };
            &&& identity.id == user.id
            &&& presented_at < now + 4 * 60 * 60 ==> authenticate_spec(
                Some(response->Ok_0.1),
                secret,
                presented_at,
            ) == Ok::<AuthenticatedUser, ErrorView>(identity)
            &&& presented_at >= now + 4 * 60 * 60 ==> authenticate_spec(
                Some(response->Ok_0.1),
                secret,
                presented_at,
            ) == Err::<AuthenticatedUser, ErrorView>(token_invalid())
            &&& me_outcome(store, identity) == Ok::<(Status, ResMeView), ErrorView>(
                (Status::Success, profile_of(user)),
            )
        }),
{
    let user = store.by_email(email)->Some_0;
    let at = choose|i: int| 0 <= i < store.users.len() && (#[trigger] store.users[i]).email == email;
    assert(user == store.users[at]);
    lemma_by_email_unique(store, at);
}

/// An identity lookup for a token that is accepted but whose subject is not
/// stored (any longer) fails with `NotFound`; it is no internal failure.
pub proof fn lemma_vanished_subject_not_found(
    store: StoreModel,
    token: Seq<char>,
    secret: Seq<char>,
    now: int,
)
    requires
        authenticate_spec(Some(token), secret, now) matches Ok(user) && !store.has_id(
            as_signed(user.id as int),
        ),
    ensures
        authenticate_spec(Some(token), secret, now) matches Ok(user) && me_outcome(store, user)
            == Err::<(Status, ResMeView), ErrorView>(user_not_found()),
        user_not_found().kind == ErrorKind::NotFound,
{
}

/// After a user was removed from the store, an identity lookup for that
/// user's id fails with `NotFound`.
pub proof fn lemma_removed_user_not_found(store: StoreModel, at: int, user: AuthenticatedUser)
    requires
        store.wf(),
        store.open_at is None,
        0 <= at < store.users.len(),
        as_signed(user.id as int) == store.users[at].id,
    ensures
        me_outcome(store, user) == Ok::<(Status, ResMeView), ErrorView>(
            (Status::Success, profile_of(store.users[at])),
        ),
        me_outcome(store.without(at), user) == Err::<(Status, ResMeView), ErrorView>(
            user_not_found(),
        ),
{
    lemma_by_email_unique(store, at);
    lemma_removed_is_gone(store, at);
}

} // verus!
