//! The user store as the authentication core sees it: the requests that the
//! core makes, the replies that may come back, and a store held in memory
//! that answers them. Persistence itself is not this library's business: a
//! caller that keeps users in a database answers the same requests from it.

use vstd::prelude::*;
use crate::entities::{NewUser, NewUserView, User, UserView};
use crate::text::copy_opt;

verus! {

/// A store failed; the text says how.
#[derive(Debug)]
pub struct StoreFailure {
    pub detail: String,
}

/// What the core asks of the store.
#[derive(Debug)]
pub enum StoreRequest {
    /// Open a transaction.
    Begin,
    /// The user with this email, if there is one.
    FindByEmail(String),
    /// The user with this id, if there is one.
    FindById(i32),
    /// Store a user under an id that the store picks.
    Insert(NewUser),
    /// Make the open transaction's changes permanent.
    Commit,
    /// Undo the open transaction's changes.
    Rollback,
}

/// A `StoreRequest` as a plain value.
pub enum StoreRequestView {
    Begin,
    FindByEmail(Seq<char>),
    FindById(int),
    Insert(NewUserView),
    Commit,
    Rollback,
}

impl View for StoreRequest {
    type V = StoreRequestView;

    open spec fn view(&self) -> StoreRequestView {
        match self {
            StoreRequest::Begin => StoreRequestView::Begin,
            StoreRequest::FindByEmail(email) => StoreRequestView::FindByEmail(email@),
            StoreRequest::FindById(id) => StoreRequestView::FindById(*id as int),
            StoreRequest::Insert(user) => StoreRequestView::Insert(user@),
            StoreRequest::Commit => StoreRequestView::Commit,
            StoreRequest::Rollback => StoreRequestView::Rollback,
        }
    }
}

/// What the store answers.
#[derive(Debug)]
pub enum StoreReply {
    /// A transaction was opened, committed or rolled back.
    Done,
    /// The result of a lookup.
    Found(Option<User>),
    /// The user was stored under this id.
    Inserted(i32),
    /// The store failed; the text says how.
    Failed(String),
}

/// A `StoreReply` as a plain value.
pub enum StoreReplyView {
    Done,
    Found(Option<UserView>),
    Inserted(int),
    Failed(Seq<char>),
}

impl View for StoreReply {
    type V = StoreReplyView;

    open spec fn view(&self) -> StoreReplyView {
        match self {
            StoreReply::Done => StoreReplyView::Done,
            StoreReply::Found(found) => StoreReplyView::Found(
                match found {
                    Some(user) => Some(user@),
                    None => None,
                },
            ),
            StoreReply::Inserted(id) => StoreReplyView::Inserted(*id as int),
            StoreReply::Failed(detail) => StoreReplyView::Failed(detail@),
        }
    }
}

/// The record that a new user is stored as under an id.
pub open spec fn stored_as(user: NewUserView, id: int) -> UserView {
    UserView {
        id,
        email: user.email,
        password: user.password,
        firstname: user.firstname,
        lastname: user.lastname,
    }
}

/// What a user store holds: the users in the order they were stored, the id
/// that the next user gets, and, while a transaction is open, how many users
/// there were when it was opened.
pub struct StoreModel {
    pub users: Seq<UserView>,
    pub next_id: int,
    pub open_at: Option<int>,
}

impl StoreModel {
    /// The store that holds nobody.
    pub open spec fn empty() -> StoreModel {
        StoreModel { users: Seq::empty(), next_id: 1, open_at: None }
    }

    /// The invariant of a store: ids are positive, grow in the order of
    /// storing and lie below the next id; no two users share an email.
    pub open spec fn wf(self) -> bool {
        &&& 1 <= self.next_id <= i32::MAX
        &&& forall|i: int| 0 <= i < self.users.len() ==> 1 <= (#[trigger] self.users[i]).id < self.next_id
        &&& forall|i: int, j: int|
            0 <= i < j < self.users.len() ==> (#[trigger] self.users[i]).id < (#[trigger] self.users[j]).id
        &&& forall|i: int, j: int|
            0 <= i < j < self.users.len() ==> (#[trigger] self.users[i]).email != (#[trigger] self.users[j]).email
        &&& self.open_at matches Some(mark) ==> 0 <= mark <= self.users.len()
    }

    /// Whether a user with this email is stored.
    pub open spec fn has_email(self, email: Seq<char>) -> bool {
        exists|i: int| 0 <= i < self.users.len() && (#[trigger] self.users[i]).email == email
    }

    /// The user with this email.
    pub open spec fn by_email(self, email: Seq<char>) -> Option<UserView> {
        if self.has_email(email) {
            Some(
                self.users[choose|i: int|
                    0 <= i < self.users.len() && (#[trigger] self.users[i]).email == email],
            )
        } else {
            None
        }
    }

    /// Whether a user with this id is stored.
    pub open spec fn has_id(self, id: int) -> bool {
        exists|i: int| 0 <= i < self.users.len() && (#[trigger] self.users[i]).id == id
    }

    /// The user with this id.
    pub open spec fn by_id(self, id: int) -> Option<UserView> {
        if self.has_id(id) {
            Some(
                self.users[choose|i: int| 0 <= i < self.users.len() && (#[trigger] self.users[i]).id == id],
            )
        } else {
            None
        }
    }

    /// Whether exactly one user is stored with this email.
    pub open spec fn holds_once(self, email: Seq<char>) -> bool {
        exists|i: int|
            0 <= i < self.users.len() && (#[trigger] self.users[i]).email == email && forall|j: int|
                0 <= j < self.users.len() && j != i ==> (#[trigger] self.users[j]).email != email
    }

    /// The store after a request, and the reply to it.
    ///
    /// `Begin` fails while a transaction is open and `Commit` fails while none
    /// is. `Rollback` drops the users stored since the transaction was opened
    /// and does nothing where none is open. `Insert` fails for an email that
    /// is stored already and when no id is left; ids are not given twice, also
    /// not after a rollback.
    pub open spec fn perform(self, request: StoreRequestView) -> (StoreModel, StoreReplyView) {
        match request {
            StoreRequestView::Begin => {
                if self.open_at is None {
                    (
                        StoreModel { open_at: Some(self.users.len() as int), ..self },
                        StoreReplyView::Done,
                    )
                } else {
                    (self, StoreReplyView::Failed("a transaction is already open"@))
                }
            },
            StoreRequestView::FindByEmail(email) => (
                self,
                StoreReplyView::Found(self.by_email(email)),
            ),
            StoreRequestView::FindById(id) => (self, StoreReplyView::Found(self.by_id(id))),
            StoreRequestView::Insert(user) => {
                if self.has_email(user.email) {
                    (self, StoreReplyView::Failed("the email is already stored"@))
                } else if self.next_id >= i32::MAX {
                    (self, StoreReplyView::Failed("no user id is left"@))
                } else {
                    (
                        StoreModel {
                            users: self.users.push(stored_as(user, self.next_id)),
                            next_id: self.next_id + 1,
                            ..self
                        },
                        StoreReplyView::Inserted(self.next_id),
                    )
                }
            },
            StoreRequestView::Commit => {
                if self.open_at is Some {
                    (StoreModel { open_at: None, ..self }, StoreReplyView::Done)
                } else {
                    (self, StoreReplyView::Failed("no transaction is open"@))
                }
            },
            StoreRequestView::Rollback => match self.open_at {
                Some(mark) => (
                    StoreModel { users: self.users.subrange(0, mark), open_at: None, ..self },
                    StoreReplyView::Done,
                ),
                None => (self, StoreReplyView::Done),
            },
        }
    }

    /// The store without the user at a position.
    pub open spec fn without(self, at: int) -> StoreModel {
        StoreModel { users: self.users.remove(at), ..self }
    }
}

/// In a well-formed store a lookup by email finds the one user that has it.
pub proof fn lemma_by_email_unique(store: StoreModel, at: int)
    requires
        store.wf(),
        0 <= at < store.users.len(),
    ensures
        store.by_email(store.users[at].email) == Some(store.users[at]),
        store.by_id(store.users[at].id) == Some(store.users[at]),
{
    let email = store.users[at].email;
    let found = choose|i: int| 0 <= i < store.users.len() && (#[trigger] store.users[i]).email == email;
    assert(found == at) by {
        if found < at {
            assert(store.users[found].email != store.users[at].email);
        } else if at < found {
            assert(store.users[at].email != store.users[found].email);
        }
    }
    let id = store.users[at].id;
    let found_id = choose|i: int| 0 <= i < store.users.len() && (#[trigger] store.users[i]).id == id;
    assert(found_id == at) by {
        if found_id < at {
            assert(store.users[found_id].id < store.users[at].id);
        } else if at < found_id {
            assert(store.users[at].id < store.users[found_id].id);
        }
    }
}

/// In a well-formed store an email that is stored is stored exactly once.
pub proof fn lemma_email_held_once(store: StoreModel, email: Seq<char>)
    requires
        store.wf(),
        store.has_email(email),
    ensures
        store.holds_once(email),
{
    let at = choose|i: int| 0 <= i < store.users.len() && (#[trigger] store.users[i]).email == email;
    assert forall|j: int| 0 <= j < store.users.len() && j != at implies (
    #[trigger] store.users[j]).email != email by {
        if j < at {
            assert(store.users[j].email != store.users[at].email);
        } else {
            assert(store.users[at].email != store.users[j].email);
        }
    }
}

/// Once a user is removed from a well-formed store, nobody in it has that
/// user's id, and the store is still well-formed.
pub proof fn lemma_removed_is_gone(store: StoreModel, at: int)
    requires
        store.wf(),
        0 <= at < store.users.len(),
        store.open_at is None,
    ensures
        store.without(at).wf(),
        !store.without(at).has_id(store.users[at].id),
        !store.without(at).has_email(store.users[at].email),
{
    let after = store.without(at);
    let id = store.users[at].id;
    let email = store.users[at].email;
    assert forall|k: int| 0 <= k < after.users.len() implies (#[trigger] after.users[k]).id != id
        && after.users[k].email != email by {
        let orig = if k < at { k } else { k + 1 };
        assert(after.users[k] == store.users[orig]);
        if orig < at {
            assert(store.users[orig].id < store.users[at].id);
            assert(store.users[orig].email != store.users[at].email);
        } else {
            assert(store.users[at].id < store.users[orig].id);
            assert(store.users[at].email != store.users[orig].email);
        }
    }
    assert forall|i: int, j: int| 0 <= i < j < after.users.len() implies (
    #[trigger] after.users[i]).id < (#[trigger] after.users[j]).id && after.users[i].email
        != after.users[j].email by {
        let oi = if i < at { i } else { i + 1 };
        let oj = if j < at { j } else { j + 1 };
        assert(after.users[i] == store.users[oi]);
        assert(after.users[j] == store.users[oj]);
        assert(store.users[oi].id < store.users[oj].id);
        assert(store.users[oi].email != store.users[oj].email);
    }
    assert forall|i: int| 0 <= i < after.users.len() implies 1 <= (#[trigger] after.users[i]).id
        < after.next_id by {
        let oi = if i < at { i } else { i + 1 };
        assert(after.users[i] == store.users[oi]);
    }
}

/// A rollback undoes what was stored since the transaction was opened: the
/// store holds the users it held before, and no transaction is open.
pub proof fn lemma_rollback_undoes_insert(store: StoreModel, user: NewUserView)
    requires
        store.wf(),
        store.open_at is None,
    ensures
        ({
            let opened = store.perform(StoreRequestView::Begin).0;
            let stored = opened.perform(StoreRequestView::Insert(user)).0;
            let undone = stored.perform(StoreRequestView::Rollback).0;
            &&& undone.users == store.users
            &&& undone.open_at is None
            &&& undone.next_id >= store.next_id
        }),
{
    let opened = store.perform(StoreRequestView::Begin).0;
    let stored = opened.perform(StoreRequestView::Insert(user)).0;
    let undone = stored.perform(StoreRequestView::Rollback).0;
    assert(undone.users =~= store.users);
}

/// A commit keeps what was stored since the transaction was opened.
pub proof fn lemma_commit_keeps_insert(store: StoreModel, user: NewUserView)
    requires
        store.wf(),
        store.open_at is None,
        !store.has_email(user.email),
        store.next_id < i32::MAX,
    ensures
        ({
            let opened = store.perform(StoreRequestView::Begin).0;
            let stored = opened.perform(StoreRequestView::Insert(user)).0;
            let (kept, reply) = stored.perform(StoreRequestView::Commit);
            &&& reply == StoreReplyView::Done
            &&& kept.users == store.users.push(stored_as(user, store.next_id))
            &&& kept.open_at is None
            &&& kept.next_id == store.next_id + 1
        }),
{
}

/// Every request leaves a well-formed store well-formed.
pub proof fn lemma_perform_keeps_wf(store: StoreModel, request: StoreRequestView)
    requires
        store.wf(),
    ensures
        store.perform(request).0.wf(),
{
    let after = store.perform(request).0;
    match request {
        StoreRequestView::Insert(user) => {
            if !store.has_email(user.email) && store.next_id < i32::MAX {
                let added = stored_as(user, store.next_id);
                assert forall|i: int, j: int| 0 <= i < j < after.users.len() implies (
                #[trigger] after.users[i]).email != (#[trigger] after.users[j]).email by {
                    if j == store.users.len() {
                        assert(store.users[i].email != user.email);
                    }
                }
            }
        },
        _ => {},
    }
}

/// A user store held in memory. It answers the requests as `StoreModel::perform`
/// says.
#[derive(Debug)]
pub struct MemoryUserStore {
    users: Vec<User>,
    next_id: i32,
    open_at: Option<usize>,
}

/// A copy of a user.
pub fn copy_user(user: &User) -> (copy: User)
    ensures
        copy@ == user@,
{
    User {
        id: user.id,
        email: user.email.clone(),
        password: user.password.clone(),
        firstname: copy_opt(&user.firstname),
        lastname: copy_opt(&user.lastname),
    }
}

impl View for MemoryUserStore {
    type V = StoreModel;

    closed spec fn view(&self) -> StoreModel {
        StoreModel {
            users: self.users@.map_values(|u: User| u@),
            next_id: self.next_id as int,
            open_at: match self.open_at {
                Some(mark) => Some(mark as int),
                None => None,
            },
        }
    }
}

impl MemoryUserStore {
    /// The invariant that every operation keeps.
    pub open spec fn wf(&self) -> bool {
        self@.wf()
    }

    /// A store that holds nobody.
    pub fn new() -> (store: MemoryUserStore)
        ensures
            store.wf(),
            store@ == StoreModel::empty(),
    {
        let store = MemoryUserStore { users: Vec::new(), next_id: 1, open_at: None };
        assert(store@.users =~= Seq::empty());
        store
    }

    /// How many users are stored.
    pub fn len(&self) -> (n: usize)
        ensures
            n == self@.users.len(),
    {
        self.users.len()
    }

    /// Whether a transaction is open.
    pub fn in_transaction(&self) -> (open: bool)
        ensures
            open == self@.open_at is Some,
    {
        self.open_at.is_some()
    }

    fn position_of_email(&self, email: &String) -> (at: Option<usize>)
        ensures
            match at {
                Some(i) => i < self@.users.len() && self@.users[i as int].email == email@,
                None => !self@.has_email(email@),
            },
    {
        let mut i: usize = 0;
        while i < self.users.len()
            invariant
                i <= self.users.len(),
                forall|j: int| 0 <= j < i ==> (#[trigger] self@.users[j]).email != email@,
            decreases self.users.len() - i,
        {
            if self.users[i].email == *email {
                return Some(i);
            }
            i += 1;
        }
        None
    }

    fn position_of_id(&self, id: i32) -> (at: Option<usize>)
        ensures
            match at {
                Some(i) => i < self@.users.len() && self@.users[i as int].id == id,
                None => !self@.has_id(id as int),
            },
    {
        let mut i: usize = 0;
        while i < self.users.len()
            invariant
                i <= self.users.len(),
                forall|j: int| 0 <= j < i ==> (#[trigger] self@.users[j]).id != id,
            decreases self.users.len() - i,
        {
            if self.users[i].id == id {
                return Some(i);
            }
            i += 1;
        }
        None
    }

    fn found_at(&self, at: Option<usize>) -> (found: Option<User>)
        requires
            at matches Some(i) ==> i < self@.users.len(),
        ensures
            match at {
                Some(i) => found matches Some(user) && user@ == self@.users[i as int],
                None => found is None,
            },
    {
        match at {
            Some(i) => Some(copy_user(&self.users[i])),
            None => None,
        }
    }

    /// Answers a request.
    pub fn perform(&mut self, request: StoreRequest) -> (reply: StoreReply)
        requires
            old(self).wf(),
        ensures
            final(self).wf(),
            (final(self)@, reply@) == old(self)@.perform(request@),
    {
        proof {
            lemma_perform_keeps_wf(self@, request@);
        }
        match request {
            StoreRequest::Begin => {
                if self.open_at.is_none() {
                    self.open_at = Some(self.users.len());
                    StoreReply::Done
                } else {
                    StoreReply::Failed("a transaction is already open".to_string())
                }
            },
            StoreRequest::FindByEmail(email) => {
                let at = self.position_of_email(&email);
                proof {
                    if let Some(i) = at {
                        lemma_by_email_unique(self@, i as int);
                    }
                }
                StoreReply::Found(self.found_at(at))
            },
            StoreRequest::FindById(id) => {
                let at = self.position_of_id(id);
                proof {
                    if let Some(i) = at {
                        lemma_by_email_unique(self@, i as int);
                    }
                }
                StoreReply::Found(self.found_at(at))
            },
            StoreRequest::Insert(user) => {
                if self.position_of_email(&user.email).is_some() {
                    StoreReply::Failed("the email is already stored".to_string())
                } else if self.next_id >= i32::MAX {
                    StoreReply::Failed("no user id is left".to_string())
                } else {
                    let id = self.next_id;
                    let ghost before = self@;
                    self.next_id = id + 1;
                    self.users.push(
                        User {
                            id,
                            email: user.email,
                            password: user.password,
                            firstname: user.firstname,
                            lastname: user.lastname,
                        },
                    );
                    assert(self@.users =~= before.users.push(stored_as(user@, id as int)));
                    StoreReply::Inserted(id)
                }
            },
            StoreRequest::Commit => {
                if self.open_at.is_some() {
                    self.open_at = None;
                    StoreReply::Done
                } else {
                    StoreReply::Failed("no transaction is open".to_string())
                }
            },
            StoreRequest::Rollback => {
                match self.open_at {
                    Some(mark) => {
                        let ghost before = self@;
                        self.users.truncate(mark);
                        self.open_at = None;
                        assert(self@.users =~= before.users.subrange(0, mark as int));
                        StoreReply::Done
                    },
                    None => StoreReply::Done,
                }
            },
        }
    }

    /// Removes the user with an id, as a deletion behind the core's back
    /// does. Nothing is removed while a transaction is open or where no user
    /// has the id; the result says whether a user was removed.
    pub fn remove(&mut self, id: i32) -> (removed: bool)
        requires
            old(self).wf(),
        ensures
            final(self).wf(),
            removed == (old(self)@.open_at is None && old(self)@.has_id(id as int)),
            !removed ==> final(self)@ == old(self)@,
            removed ==> !final(self)@.has_id(id as int),
            removed ==> exists|at: int|
                0 <= at < old(self)@.users.len() && old(self)@.users[at].id == id && final(self)@
                    == #[trigger] old(self)@.without(at),
    {
        if self.open_at.is_some() {
            return false;
        }
        match self.position_of_id(id) {
            None => false,
            Some(at) => {
                let ghost before = self@;
                self.users.remove(at);
                assert(self@.users =~= before.users.remove(at as int));
                assert(self@ == before.without(at as int));
                assert(!self@.has_id(id as int)) by {
                    if self@.has_id(id as int) {
                        let k = choose|k: int|
                            0 <= k < self@.users.len() && (#[trigger] self@.users[k]).id == id;
                        let orig = if k < at { k } else { k + 1 };
                        assert(before.users[orig].id == id);
                        if orig < at {
                            assert(before.users[orig].id < before.users[at as int].id);
                        } else {
                            assert(before.users[at as int].id < before.users[orig].id);
                        }
                    }
                }
                true
            },
        }
    }
}

} // verus!
