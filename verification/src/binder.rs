//! The connection-context binder: one request's way from its headers to a
//! database session stamped with its caller.
//!
//! The binder decides and the server acts. [`step`] takes the state of a
//! request and what has just happened, and gives the next state and what to do
//! next: search for an identity, lease a connection, stamp its session, hand
//! the connection to the handler, or reject the request. A connection whose
//! stamp failed is discarded; it never goes back to the pool. Every other
//! connection goes back when the request ends, however it ends.

use vstd::prelude::*;

use crate::credentials::{
    basic_credentials, basic_scheme, resolution_view, resolve, spec_has_scheme, spec_resolve,
    CredentialView, ResolvedCredential,
};
use crate::digest::spec_hash;
use crate::error::{ActionsView, Error, Failure, Report, Stage, UNAUTHORIZED};
use crate::identity::{
    caller_id, caller_view, load, load_view, spec_caller_id, spec_load, DatabaseUserView, Lookup,
    LookupView, User, UserView, ANONYMOUS_ID,
};

verus! {

/// What asking the pool for a connection came to.
#[derive(Clone, Copy, Debug, PartialEq, Eq, Structural)]
pub enum PoolOutcome {
    /// A connection was leased.
    Acquired,
    /// No connection came free in time.
    Exhausted,
    /// The pool's backend failed.
    Unavailable,
}

/// What has just happened to a request.
#[derive(Clone, Debug, PartialEq, Eq)]
pub enum BindEvent {
    /// The request arrived, with the first value of its authorization header
    /// and the value of its session cookie.
    Request { authorization: Option<Vec<u8>>, session: Option<String> },
    /// The search for the claimed username ended.
    Lookup(Lookup),
    /// The pool answered.
    Pool(PoolOutcome),
    /// The statement that stamps the session ran; `true` where it succeeded.
    Stamp(bool),
    /// The request is over: its handler returned, or the transport gave it up.
    Ended,
}

/// What a [`BindEvent`] holds.
pub enum BindEventView {
    Request { authorization: Option<Seq<u8>>, session: Option<Seq<char>> },
    Lookup(LookupView),
    Pool(PoolOutcome),
    Stamp(bool),
    Ended,
}

impl View for BindEvent {
    type V = BindEventView;

    open spec fn view(&self) -> BindEventView {
        match self {
            BindEvent::Request { authorization, session } => BindEventView::Request {
                authorization: match authorization {
                    Some(value) => Some(value@),
                    None => None,
                },
                session: match session {
                    Some(value) => Some(value@),
                    None => None,
                },
            },
            BindEvent::Lookup(lookup) => BindEventView::Lookup(lookup@),
            BindEvent::Pool(outcome) => BindEventView::Pool(*outcome),
            BindEvent::Stamp(succeeded) => BindEventView::Stamp(*succeeded),
            BindEvent::Ended => BindEventView::Ended,
        }
    }
}

/// Where a request stands.
#[derive(Clone, Debug, PartialEq, Eq)]
pub enum BindState {
    /// Nothing has been read yet.
    Start,
    /// A username and a secret were claimed and the identity is being searched.
    LookingUp { username: String, secret: String },
    /// The caller is settled and a connection is being leased.
    Acquiring(Option<User>),
    /// A connection is leased and its session is being stamped.
    Stamping(Option<User>),
    /// The session is stamped with the caller.
    Bound(Option<User>),
    /// The request failed. The flag says whether a caller had been found.
    Failed(Failure, bool),
    /// The request is over and holds nothing.
    Closed,
}

/// What a [`BindState`] holds.
pub enum BindStateView {
    Start,
    LookingUp { username: Seq<char>, secret: Seq<char> },
    Acquiring(Option<UserView>),
    Stamping(Option<UserView>),
    Bound(Option<UserView>),
    Failed(Failure, bool),
    Closed,
}

impl View for BindState {
    type V = BindStateView;

    open spec fn view(&self) -> BindStateView {
        match self {
            BindState::Start => BindStateView::Start,
            BindState::LookingUp { username, secret } => BindStateView::LookingUp {
                username: username@,
                secret: secret@,
            },
            BindState::Acquiring(user) => BindStateView::Acquiring(caller_view(*user)),
            BindState::Stamping(user) => BindStateView::Stamping(caller_view(*user)),
            BindState::Bound(user) => BindStateView::Bound(caller_view(*user)),
            BindState::Failed(failure, authenticated) => BindStateView::Failed(
                *failure,
                *authenticated,
            ),
            BindState::Closed => BindStateView::Closed,
        }
    }
}

/// What the server is to do next.
#[derive(Clone, Debug, PartialEq, Eq)]
pub enum BindAction {
    /// Read the request's headers and cookies.
    AwaitRequest,
    /// Search storage for the identity of this username.
    FindIdentity(String),
    /// Lease a connection from the pool.
    AcquireConnection,
    /// Record this id as the caller in the leased connection's session.
    StampSession(i32),
    /// Hand the connection to the handler.
    Proceed,
    /// Answer with the failure. No connection is held.
    Reject,
    /// Drop the leased connection without returning it to the pool, then
    /// answer with the failure.
    DiscardAndReject,
    /// Return the leased connection to the pool.
    ReleaseConnection,
    /// Nothing is held and nothing is left to do.
    Done,
}

/// What a [`BindAction`] holds.
pub enum BindActionView {
    AwaitRequest,
    FindIdentity(Seq<char>),
    AcquireConnection,
    StampSession(i32),
    Proceed,
    Reject,
    DiscardAndReject,
    ReleaseConnection,
    Done,
}

impl View for BindAction {
    type V = BindActionView;

    open spec fn view(&self) -> BindActionView {
        match self {
            BindAction::AwaitRequest => BindActionView::AwaitRequest,
            BindAction::FindIdentity(username) => BindActionView::FindIdentity(username@),
            BindAction::AcquireConnection => BindActionView::AcquireConnection,
            BindAction::StampSession(id) => BindActionView::StampSession(*id),
            BindAction::Proceed => BindActionView::Proceed,
            BindAction::Reject => BindActionView::Reject,
            BindAction::DiscardAndReject => BindActionView::DiscardAndReject,
            BindAction::ReleaseConnection => BindActionView::ReleaseConnection,
            BindAction::Done => BindActionView::Done,
        }
    }
}

impl BindStateView {
    /// What a state is waiting for. An event that a state does not expect
    /// changes nothing and is answered with this.
    pub open spec fn pending(self) -> BindActionView {
        match self {
            BindStateView::Start => BindActionView::AwaitRequest,
            BindStateView::LookingUp { username, secret } => BindActionView::FindIdentity(
                username,
            ),
            BindStateView::Acquiring(_) => BindActionView::AcquireConnection,
            BindStateView::Stamping(user) => BindActionView::StampSession(spec_caller_id(user)),
            BindStateView::Bound(_) => BindActionView::Proceed,
            BindStateView::Failed(_, _) => BindActionView::Reject,
            BindStateView::Closed => BindActionView::Done,
        }
    }

    /// Whether a leased connection is held in this state.
    pub open spec fn holds_connection(self) -> bool {
        self is Stamping || self is Bound
    }

    /// The caller, once it is settled.
    pub open spec fn settled_caller(self) -> Option<Option<UserView>> {
        match self {
            BindStateView::Acquiring(user) => Some(user),
            BindStateView::Stamping(user) => Some(user),
            BindStateView::Bound(user) => Some(user),
            _ => None,
        }
    }

    /// Whether the request has come to its end.
    pub open spec fn is_terminal(self) -> bool {
        self is Failed || self is Closed
    }

    /// The number of leased connections held in this state.
    pub open spec fn leases(self) -> int {
        if self.holds_connection() {
            1
        } else {
            0
        }
    }
}

impl BindActionView {
    /// Whether an action gives a leased connection up, to the pool or for
    /// good.
    pub open spec fn gives_up(self) -> bool {
        self is ReleaseConnection || self is DiscardAndReject
    }
}

/// Whether a step is the one in which a connection is leased.
pub open spec fn takes_lease(state: BindStateView, event: BindEventView) -> bool {
    state is Acquiring && event == BindEventView::Pool(PoolOutcome::Acquired)
}

/// The state after a claim was resolved.
pub open spec fn spec_after_resolve(resolved: Result<CredentialView, Failure>) -> (
    BindStateView,
    BindActionView,
) {
    match resolved {
        Err(failure) => (BindStateView::Failed(failure, false), BindActionView::Reject),
        Ok(CredentialView::UsernamePassword(username, secret)) => (
            BindStateView::LookingUp { username, secret },
            BindActionView::FindIdentity(username),
        ),
        Ok(_) => (BindStateView::Acquiring(None), BindActionView::AcquireConnection),
    }
}

/// The state after the caller was loaded.
pub open spec fn spec_after_load(loaded: Result<Option<UserView>, Failure>) -> (
    BindStateView,
    BindActionView,
) {
    match loaded {
        Ok(user) => (BindStateView::Acquiring(user), BindActionView::AcquireConnection),
        Err(failure) => (BindStateView::Failed(failure, false), BindActionView::Reject),
    }
}

/// The state after the pool answered.
pub open spec fn spec_after_pool(user: Option<UserView>, outcome: PoolOutcome) -> (
    BindStateView,
    BindActionView,
) {
    match outcome {
        PoolOutcome::Acquired => (
            BindStateView::Stamping(user),
            BindActionView::StampSession(spec_caller_id(user)),
        ),
        PoolOutcome::Exhausted => (
            BindStateView::Failed(Failure::PoolExhausted, user is Some),
            BindActionView::Reject,
        ),
        PoolOutcome::Unavailable => (
            BindStateView::Failed(Failure::PoolUnavailable, user is Some),
            BindActionView::Reject,
        ),
    }
}

/// The state after the stamping statement ran.
pub open spec fn spec_after_stamp(user: Option<UserView>, succeeded: bool) -> (
    BindStateView,
    BindActionView,
) {
    if succeeded {
        (BindStateView::Bound(user), BindActionView::Proceed)
    } else {
        (
            BindStateView::Failed(Failure::SessionBindFailed, user is Some),
            BindActionView::DiscardAndReject,
        )
    }
}

/// The state after the request ended: a connection that is held goes back to
/// the pool, and a request that had failed stays failed.
pub open spec fn spec_after_end(state: BindStateView) -> (BindStateView, BindActionView) {
    if state.holds_connection() {
        (BindStateView::Closed, BindActionView::ReleaseConnection)
    } else if state is Failed {
        (state, BindActionView::Reject)
    } else {
        (BindStateView::Closed, BindActionView::Done)
    }
}

/// One step of a request: the next state and the next action.
pub open spec fn spec_step(state: BindStateView, event: BindEventView) -> (
    BindStateView,
    BindActionView,
) {
    match (state, event) {
        (_, BindEventView::Ended) => spec_after_end(state),
        (BindStateView::Start, BindEventView::Request { authorization, session }) => {
            spec_after_resolve(spec_resolve(authorization, session))
        },
        (BindStateView::LookingUp { username, secret }, BindEventView::Lookup(lookup)) => {
            spec_after_load(spec_load(CredentialView::UsernamePassword(username, secret), lookup))
        },
        (BindStateView::Acquiring(user), BindEventView::Pool(outcome)) => spec_after_pool(
            user,
            outcome,
        ),
        (BindStateView::Stamping(user), BindEventView::Stamp(succeeded)) => spec_after_stamp(
            user,
            succeeded,
        ),
        _ => (state, state.pending()),
    }
}

/// The state of a request after a run of events.
pub open spec fn spec_run(state: BindStateView, events: Seq<BindEventView>) -> BindStateView
    decreases events.len(),
{
    if events.len() == 0 {
        state
    } else {
        spec_run(spec_step(state, events[0]).0, events.drop_first())
    }
}

/// The id of the last stamp that a run of events asked for, or `last` where it
/// asked for none.
pub open spec fn spec_last_stamp(
    state: BindStateView,
    events: Seq<BindEventView>,
    last: Option<i32>,
) -> Option<i32>
    decreases events.len(),
{
    if events.len() == 0 {
        last
    } else {
        let (next, action) = spec_step(state, events[0]);
        spec_last_stamp(
            next,
            events.drop_first(),
            match action {
                BindActionView::StampSession(id) => Some(id),
                _ => last,
            },
        )
    }
}

/// The number of connections that a run of events leases.
pub open spec fn spec_leased(state: BindStateView, events: Seq<BindEventView>) -> int
    decreases events.len(),
{
    if events.len() == 0 {
        0
    } else {
        (if takes_lease(state, events[0]) {
            1int
        } else {
            0int
        }) + spec_leased(spec_step(state, events[0]).0, events.drop_first())
    }
}

/// The number of connections that the actions of a run of events give up.
pub open spec fn spec_given_up(state: BindStateView, events: Seq<BindEventView>) -> int
    decreases events.len(),
{
    if events.len() == 0 {
        0
    } else {
        (if spec_step(state, events[0]).1.gives_up() {
            1int
        } else {
            0int
        }) + spec_given_up(spec_step(state, events[0]).0, events.drop_first())
    }
}

/// The view of a step's outcome.
pub open spec fn step_view(next: (BindState, BindAction)) -> (BindStateView, BindActionView) {
    (next.0@, next.1@)
}

/// The step that follows resolving the claim.
pub fn after_resolve(resolved: Result<ResolvedCredential, Failure>) -> (next: (
    BindState,
    BindAction,
))
    ensures
        step_view(next) == spec_after_resolve(resolution_view(resolved)),
{
    match resolved {
        Err(failure) => (BindState::Failed(failure, false), BindAction::Reject),
        Ok(ResolvedCredential::UsernamePassword(username, secret)) => {
            let key = username.clone();
            (BindState::LookingUp { username, secret }, BindAction::FindIdentity(key))
        },
        Ok(_) => (BindState::Acquiring(None), BindAction::AcquireConnection),
    }
}

/// The step that follows loading the caller.
pub fn after_load(loaded: Result<Option<User>, Failure>) -> (next: (BindState, BindAction))
    ensures
        step_view(next) == spec_after_load(load_view(loaded)),
{
    match loaded {
        Ok(user) => (BindState::Acquiring(user), BindAction::AcquireConnection),
        Err(failure) => (BindState::Failed(failure, false), BindAction::Reject),
    }
}

/// What `state` is waiting for.
pub fn pending(state: &BindState) -> (action: BindAction)
    ensures
        action@ == state@.pending(),
{
    match state {
        BindState::Start => BindAction::AwaitRequest,
        BindState::LookingUp { username, secret } => BindAction::FindIdentity(username.clone()),
        BindState::Acquiring(_) => BindAction::AcquireConnection,
        BindState::Stamping(user) => BindAction::StampSession(caller_id(user)),
        BindState::Bound(_) => BindAction::Proceed,
        BindState::Failed(_, _) => BindAction::Reject,
        BindState::Closed => BindAction::Done,
    }
}

/// Takes a request one step further.
///
/// An event that the state does not expect leaves the state as it is and is
/// answered with the action that the state is waiting for.
pub fn step(state: BindState, event: BindEvent) -> (next: (BindState, BindAction))
    ensures
        step_view(next) == spec_step(state@, event@),
{
    match state {
        BindState::Start => match event {
            BindEvent::Request { authorization, session } => {
                let header: Option<&[u8]> = match &authorization {
                    Some(value) => Some(value.as_slice()),
                    None => None,
                };
                let cookie: Option<&str> = match &session {
                    Some(value) => Some(value.as_str()),
                    None => None,
                };
                after_resolve(resolve(header, cookie))
            },
            BindEvent::Ended => (BindState::Closed, BindAction::Done),
            _ => (BindState::Start, BindAction::AwaitRequest),
        },
        BindState::LookingUp { username, secret } => match event {
            BindEvent::Lookup(lookup) => after_load(
                load(ResolvedCredential::UsernamePassword(username, secret), lookup),
            ),
            BindEvent::Ended => (BindState::Closed, BindAction::Done),
            _ => {
                let key = username.clone();
                (BindState::LookingUp { username, secret }, BindAction::FindIdentity(key))
            },
        },
        BindState::Acquiring(user) => match event {
            BindEvent::Pool(PoolOutcome::Acquired) => {
                let id = caller_id(&user);
                (BindState::Stamping(user), BindAction::StampSession(id))
            },
            BindEvent::Pool(PoolOutcome::Exhausted) => (
                BindState::Failed(Failure::PoolExhausted, user.is_some()),
                BindAction::Reject,
            ),
            BindEvent::Pool(PoolOutcome::Unavailable) => (
                BindState::Failed(Failure::PoolUnavailable, user.is_some()),
                BindAction::Reject,
            ),
            BindEvent::Ended => (BindState::Closed, BindAction::Done),
            _ => (BindState::Acquiring(user), BindAction::AcquireConnection),
        },
        BindState::Stamping(user) => match event {
            BindEvent::Stamp(true) => (BindState::Bound(user), BindAction::Proceed),
            BindEvent::Stamp(false) => (
                BindState::Failed(Failure::SessionBindFailed, user.is_some()),
                BindAction::DiscardAndReject,
            ),
            BindEvent::Ended => (BindState::Closed, BindAction::ReleaseConnection),
            _ => {
                let id = caller_id(&user);
                (BindState::Stamping(user), BindAction::StampSession(id))
            },
        },
        BindState::Bound(user) => match event {
            BindEvent::Ended => (BindState::Closed, BindAction::ReleaseConnection),
            _ => (BindState::Bound(user), BindAction::Proceed),
        },
        BindState::Failed(failure, authenticated) => (
            BindState::Failed(failure, authenticated),
            BindAction::Reject,
        ),
        BindState::Closed => (BindState::Closed, BindAction::Done),
    }
}

/// A leased connection's context: the id its session is stamped with, and the
/// caller. The two always agree.
#[derive(Debug, PartialEq, Eq)]
pub struct DatabaseConnection {
    stamped: i32,
    user: Option<User>,
}

impl DatabaseConnection {
    /// The id that the session is stamped with.
    pub closed spec fn spec_stamped(&self) -> i32 {
        self.stamped
    }

    /// The caller.
    pub closed spec fn spec_user(&self) -> Option<UserView> {
        caller_view(self.user)
    }

    /// The session is stamped with the caller's id, or with the anonymous id
    /// where there is no caller.
    pub open spec fn wf(&self) -> bool {
        self.spec_stamped() == spec_caller_id(self.spec_user())
    }

    /// The context of a bound request: `Some` exactly in the state `Bound`,
    /// and then with that state's caller.
    pub fn bound(state: BindState) -> (context: Option<DatabaseConnection>)
        ensures
            match state@ {
                BindStateView::Bound(user) => context is Some && context->0.wf()
                    && context->0.spec_user() == user,
                _ => context is None,
            },
    {
        match state {
            BindState::Bound(user) => Some(DatabaseConnection { stamped: caller_id(&user), user }),
            _ => None,
        }
    }

    /// The id that the session is stamped with.
    pub fn stamped(&self) -> (id: i32)
        ensures
            id == self.spec_stamped(),
    {
        self.stamped
    }

    /// The caller.
    pub fn user(&self) -> (user: &Option<User>)
        ensures
            caller_view(*user) == self.spec_user(),
    {
        &self.user
    }

    /// Gives the caller up.
    pub fn into_user(self) -> (user: Option<User>)
        ensures
            caller_view(user) == self.spec_user(),
    {
        self.user
    }
}

/// The error to answer a failed request with: `Some` exactly in the state
/// `Failed`. `cause` is the report of what went wrong underneath.
pub fn rejection(state: &BindState, cause: Report) -> (error: Option<Error>)
    ensures
        match state@ {
            BindStateView::Failed(failure, authenticated) => error is Some && error->0.is_failure(
                failure,
                authenticated,
                cause,
            ),
            _ => error is None,
        },
{
    match state {
        BindState::Failed(failure, authenticated) => Some(
            Error::from_failure(*failure, *authenticated, cause),
        ),
        _ => None,
    }
}

/// The anonymous path: a request without a header and without a cookie is
/// bound all the same, and its session is stamped with the anonymous id.
pub proof fn lemma_anonymous_request_is_bound()
    ensures
        spec_step(
            BindStateView::Start,
            BindEventView::Request { authorization: None, session: None },
        ) == (BindStateView::Acquiring(None), BindActionView::AcquireConnection),
        spec_step(BindStateView::Acquiring(None), BindEventView::Pool(PoolOutcome::Acquired)) == (
            BindStateView::Stamping(None),
            BindActionView::StampSession(ANONYMOUS_ID),
        ),
        spec_step(BindStateView::Stamping(None), BindEventView::Stamp(true)) == (
            BindStateView::Bound(None),
            BindActionView::Proceed,
        ),
{
}

/// The authenticated path: a request whose header carries a username and the
/// secret that its stored identity was made with is bound under that
/// identity, whatever its cookie holds, and its session is stamped with that
/// identity's id.
pub proof fn lemma_authenticated_request_is_bound(
    authorization: Seq<u8>,
    session: Option<Seq<char>>,
    username: Seq<char>,
    secret: Seq<char>,
    row: DatabaseUserView,
)
    requires
        spec_has_scheme(authorization, basic_scheme()),
        basic_credentials(authorization) == Some((username, secret)),
        row.password == spec_hash(username, secret),
    ensures
        ({
            let caller = Some(UserView { id: row.id, username: row.username });
            &&& spec_step(
                BindStateView::Start,
                BindEventView::Request { authorization: Some(authorization), session },
            ) == (
                BindStateView::LookingUp { username, secret },
                BindActionView::FindIdentity(username),
            )
            &&& spec_step(
                BindStateView::LookingUp { username, secret },
                BindEventView::Lookup(LookupView::Found(row)),
            ) == (BindStateView::Acquiring(caller), BindActionView::AcquireConnection)
            &&& spec_step(
                BindStateView::Acquiring(caller),
                BindEventView::Pool(PoolOutcome::Acquired),
            ) == (BindStateView::Stamping(caller), BindActionView::StampSession(row.id))
            &&& spec_step(BindStateView::Stamping(caller), BindEventView::Stamp(true)) == (
                BindStateView::Bound(caller),
                BindActionView::Proceed,
            )
        }),
{
}

/// A claim whose digest is not the stored one ends the request before any
/// connection is leased, with status 401 and the advice to sign out.
pub proof fn lemma_wrong_secret_is_rejected(
    username: Seq<char>,
    offered: Seq<char>,
    row: DatabaseUserView,
)
    requires
        row.password != spec_hash(username, offered),
    ensures
        spec_step(
            BindStateView::LookingUp { username, secret: offered },
            BindEventView::Lookup(LookupView::Found(row)),
        ) == (BindStateView::Failed(Failure::Unauthorized, false), BindActionView::Reject),
        Failure::Unauthorized.spec_status_code() == UNAUTHORIZED,
        Failure::Unauthorized.spec_actions(false) == ActionsView::with_sign_out(),
{
}

/// A failed stamp is safe for the pool: the connection is discarded, not
/// returned, and the request ends without holding one.
pub proof fn lemma_failed_stamp_discards_connection(user: Option<UserView>)
    ensures
        spec_step(BindStateView::Stamping(user), BindEventView::Stamp(false)) == (
            BindStateView::Failed(Failure::SessionBindFailed, user is Some),
            BindActionView::DiscardAndReject,
        ),
        !spec_step(BindStateView::Stamping(user), BindEventView::Stamp(false)).0.holds_connection(),
{
}

/// What holds of every step.
///
/// A connection comes to be held only by an answer of the pool, and the next
/// action then stamps it with the caller's id. It is handed to the handler
/// only once the stamp has succeeded. Once the caller is settled it never
/// changes, so a bound session carries the caller that was resolved. A request
/// that has ended stays where it is.
pub proof fn lemma_step_invariants(state: BindStateView, event: BindEventView)
    ensures
        ({
            let (next, action) = spec_step(state, event);
            &&& !state.holds_connection() && next.holds_connection() ==> {
                &&& takes_lease(state, event)
                &&& next is Stamping
                &&& action == BindActionView::StampSession(spec_caller_id(next->Stamping_0))
            }
            &&& action is StampSession ==> next is Stamping && action->StampSession_0
                == spec_caller_id(next->Stamping_0)
            &&& action == BindActionView::Proceed <==> next is Bound
            &&& next is Bound ==> state == next || (state is Stamping && event
                == BindEventView::Stamp(true))
            &&& state.settled_caller() is Some && next.settled_caller() is Some
                ==> next.settled_caller() == state.settled_caller()
            &&& state.is_terminal() ==> next == state && !action.gives_up()
        }),
{
}

/// Every failure names the step it arose in: a request fails with a kind of
/// the resolution while its claim is read or looked up, with a kind of the
/// lease while it waits for the pool, and with the kind of the stamp while its
/// session is stamped.
pub proof fn lemma_failure_names_its_step(state: BindStateView, event: BindEventView)
    ensures
        ({
            let next = spec_step(state, event).0;
            !(state is Failed) && next is Failed ==> match next->Failed_0.spec_stage() {
                Stage::Resolution => state is Start || state is LookingUp,
                Stage::Lease => state is Acquiring,
                Stage::Stamp => state is Stamping,
            }
        }),
{
}

/// No connection is leaked and none is given up twice.
///
/// In every step the number of connections held changes by the one that the
/// step leases and the one that its action gives up. A connection is
/// discarded exactly where its stamp failed, and returned to the pool exactly
/// where the request ended while holding it. A request that has come to its
/// end holds none.
pub proof fn lemma_no_connection_is_leaked(state: BindStateView, event: BindEventView)
    ensures
        ({
            let (next, action) = spec_step(state, event);
            &&& next.leases() == state.leases() + (if takes_lease(state, event) {
                1int
            } else {
                0int
            }) - (if action.gives_up() {
                1int
            } else {
                0int
            })
            &&& action == BindActionView::DiscardAndReject <==> state is Stamping && event
                == BindEventView::Stamp(false)
            &&& action == BindActionView::ReleaseConnection <==> state.holds_connection() && event
                == BindEventView::Ended
            &&& next.is_terminal() ==> next.leases() == 0
        }),
{
}

/// A session in use carries the caller that was resolved: wherever a run of
/// events from `state` ends holding a connection, the last stamp that was
/// asked for is the id of the caller that the run settled on.
pub proof fn lemma_run_stamps_settled_caller(
    state: BindStateView,
    events: Seq<BindEventView>,
    last: Option<i32>,
)
    requires
        state.holds_connection() ==> last == Some(spec_caller_id(state.settled_caller()->0)),
    ensures
        spec_run(state, events).holds_connection() ==> spec_last_stamp(state, events, last)
            == Some(spec_caller_id(spec_run(state, events).settled_caller()->0)),
    decreases events.len(),
{
    if events.len() > 0 {
        let (next, action) = spec_step(state, events[0]);
        lemma_step_invariants(state, events[0]);
        let stamped = match action {
            BindActionView::StampSession(id) => Some(id),
            _ => last,
        };
        lemma_run_stamps_settled_caller(next, events.drop_first(), stamped);
    }
}

/// No request runs under another caller than its own: a request that is bound
/// after any run of events has had its session stamped, last of all, with the
/// id of the caller it is bound to.
pub proof fn lemma_bound_session_carries_resolved_caller(events: Seq<BindEventView>)
    ensures
        spec_run(BindStateView::Start, events) is Bound ==> spec_last_stamp(
            BindStateView::Start,
            events,
            None,
        ) == Some(spec_caller_id(spec_run(BindStateView::Start, events)->Bound_0)),
{
    lemma_run_stamps_settled_caller(BindStateView::Start, events, None);
}

/// Leases balance over any run of events: what is held at its end is what was
/// held at its start, and what the run leased, less what its actions gave up.
pub proof fn lemma_run_balances_leases(state: BindStateView, events: Seq<BindEventView>)
    ensures
        spec_run(state, events).leases() == state.leases() + spec_leased(state, events)
            - spec_given_up(state, events),
    decreases events.len(),
{
    if events.len() > 0 {
        lemma_no_connection_is_leaked(state, events[0]);
        lemma_run_balances_leases(spec_step(state, events[0]).0, events.drop_first());
    }
}

/// A request that has come to its end has given up every connection it
/// leased, whatever happened on the way.
pub proof fn lemma_ended_request_holds_nothing(events: Seq<BindEventView>)
    ensures
        spec_run(BindStateView::Start, events).is_terminal() ==> spec_leased(
            BindStateView::Start,
            events,
        ) == spec_given_up(BindStateView::Start, events),
{
    lemma_run_balances_leases(BindStateView::Start, events);
}

} // verus!
