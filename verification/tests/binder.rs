use request_identity::binder::{
    pending, rejection, step, BindAction, BindEvent, BindState, DatabaseConnection, PoolOutcome,
};
use request_identity::digest::hash;
use request_identity::error::{Actions, Failure, Report};
use request_identity::identity::{DatabaseUser, Lookup, User};

fn request(authorization: Option<&[u8]>, session: Option<&str>) -> BindEvent {
    BindEvent::Request {
        authorization: authorization.map(|value| value.to_vec()),
        session: session.map(|value| value.to_owned()),
    }
}

fn alice() -> User {
    User { id: 7, username: "alice".to_owned() }
}

fn alice_row() -> DatabaseUser {
    DatabaseUser { id: 7, username: "alice".to_owned(), password: hash("alice", "pw1") }
}

fn no_cause() -> Report {
    Report { chain: Vec::new(), spantrace: Vec::new() }
}

#[test]
fn anonymous_request_is_bound_under_the_sentinel() {
    let (state, action) = step(BindState::Start, request(None, None));
    assert_eq!(state, BindState::Acquiring(None));
    assert_eq!(action, BindAction::AcquireConnection);
    let (state, action) = step(state, BindEvent::Pool(PoolOutcome::Acquired));
    assert_eq!(state, BindState::Stamping(None));
    assert_eq!(action, BindAction::StampSession(0));
    let (state, action) = step(state, BindEvent::Stamp(true));
    assert_eq!(state, BindState::Bound(None));
    assert_eq!(action, BindAction::Proceed);
    let context = DatabaseConnection::bound(state).expect("bound");
    assert_eq!(context.stamped(), 0);
    assert_eq!(context.user(), &None);
}

#[test]
fn authenticated_request_is_bound_under_its_caller() {
    let (state, action) = step(BindState::Start, request(Some(b"Basic YWxpY2U6cHcx"), None));
    assert_eq!(
        state,
        BindState::LookingUp { username: "alice".to_owned(), secret: "pw1".to_owned() }
    );
    assert_eq!(action, BindAction::FindIdentity("alice".to_owned()));
    let (state, action) = step(state, BindEvent::Lookup(Lookup::Found(alice_row())));
    assert_eq!(state, BindState::Acquiring(Some(alice())));
    assert_eq!(action, BindAction::AcquireConnection);
    let (state, action) = step(state, BindEvent::Pool(PoolOutcome::Acquired));
    assert_eq!(state, BindState::Stamping(Some(alice())));
    assert_eq!(action, BindAction::StampSession(7));
    let (state, action) = step(state, BindEvent::Stamp(true));
    assert_eq!(state, BindState::Bound(Some(alice())));
    assert_eq!(action, BindAction::Proceed);
    let context = DatabaseConnection::bound(state).expect("bound");
    assert_eq!(context.stamped(), 7);
    assert_eq!(context.user(), &Some(alice()));
    assert_eq!(context.into_user(), Some(alice()));
}

#[test]
fn header_decides_the_caller_when_the_cookie_names_another() {
    let event = request(Some(b"Basic YTpwdzE="), Some("Basic YjpwdzI="));
    let (state, action) = step(BindState::Start, event);
    assert_eq!(state, BindState::LookingUp { username: "a".to_owned(), secret: "pw1".to_owned() });
    assert_eq!(action, BindAction::FindIdentity("a".to_owned()));
}

#[test]
fn cookie_credential_is_looked_up() {
    let (state, action) = step(BindState::Start, request(None, Some("Basic YWxpY2U6cHcx")));
    assert_eq!(
        state,
        BindState::LookingUp { username: "alice".to_owned(), secret: "pw1".to_owned() }
    );
    assert_eq!(action, BindAction::FindIdentity("alice".to_owned()));
}

#[test]
fn malformed_header_rejects_before_anything_is_leased() {
    let event = request(Some(b"Basic ???"), Some("Basic YjpwdzI="));
    let (state, action) = step(BindState::Start, event);
    assert_eq!(state, BindState::Failed(Failure::BadCredentialFormat, false));
    assert_eq!(action, BindAction::Reject);
    let error = rejection(&state, no_cause()).expect("failed");
    assert_eq!(error.status_code(), 400);
    assert_eq!(error.chain(), &vec!["Failed to parse auth header".to_owned()]);
}

#[test]
fn wrong_password_rejects_with_401_and_sign_out() {
    let (state, _) = step(BindState::Start, request(Some(b"Basic YWxpY2U6d3Jvbmc="), None));
    let (state, action) = step(state, BindEvent::Lookup(Lookup::Found(alice_row())));
    assert_eq!(state, BindState::Failed(Failure::Unauthorized, false));
    assert_eq!(action, BindAction::Reject);
    let error = rejection(&state, no_cause()).expect("failed");
    assert_eq!(error.status_code(), 401);
    assert_eq!(error.actions(), Actions::sign_out());
    assert_eq!(error.actions().sign_out, Some("Sign out"));
    assert_eq!(error.chain(), &vec!["Passwords didn't match".to_owned()]);
}

#[test]
fn unknown_username_goes_on_without_a_caller() {
    let (state, _) = step(BindState::Start, request(Some(b"Basic YWxpY2U6cHcx"), None));
    let (state, action) = step(state, BindEvent::Lookup(Lookup::NotFound));
    assert_eq!(state, BindState::Acquiring(None));
    assert_eq!(action, BindAction::AcquireConnection);
}

#[test]
fn unreachable_storage_rejects() {
    let (state, _) = step(BindState::Start, request(Some(b"Basic YWxpY2U6cHcx"), None));
    let (state, action) = step(state, BindEvent::Lookup(Lookup::Unavailable));
    assert_eq!(state, BindState::Failed(Failure::StorageUnavailable, false));
    assert_eq!(action, BindAction::Reject);
    let cause = Report::msg("connection refused".to_owned());
    let error = rejection(&state, cause).expect("failed");
    assert_eq!(error.status_code(), 500);
    assert_eq!(
        error.chain(),
        &vec!["Failed to get user from database".to_owned(), "connection refused".to_owned()]
    );
}

#[test]
fn bearer_header_goes_on_without_a_caller() {
    let (state, action) = step(BindState::Start, request(Some(b"Bearer token"), None));
    assert_eq!(state, BindState::Acquiring(None));
    assert_eq!(action, BindAction::AcquireConnection);
}

#[test]
fn exhausted_pool_rejects_without_a_connection() {
    let (state, action) =
        step(BindState::Acquiring(Some(alice())), BindEvent::Pool(PoolOutcome::Exhausted));
    assert_eq!(state, BindState::Failed(Failure::PoolExhausted, true));
    assert_eq!(action, BindAction::Reject);
    let error = rejection(&state, no_cause()).expect("failed");
    assert_eq!(error.status_code(), 500);
    assert_eq!(error.actions(), Actions::default());
}

#[test]
fn failed_pool_rejects_without_a_connection() {
    let (state, action) =
        step(BindState::Acquiring(None), BindEvent::Pool(PoolOutcome::Unavailable));
    assert_eq!(state, BindState::Failed(Failure::PoolUnavailable, false));
    assert_eq!(action, BindAction::Reject);
    assert_eq!(rejection(&state, no_cause()).expect("failed").status_code(), 500);
}

#[test]
fn failed_stamp_discards_the_connection() {
    let (state, action) = step(BindState::Stamping(Some(alice())), BindEvent::Stamp(false));
    assert_eq!(state, BindState::Failed(Failure::SessionBindFailed, true));
    assert_eq!(action, BindAction::DiscardAndReject);
    assert_eq!(DatabaseConnection::bound(state.clone()), None);
    let error = rejection(&state, no_cause()).expect("failed");
    assert_eq!(error.status_code(), 500);
    assert_eq!(error.actions(), Actions::sign_out());
    // Nothing is left to release: the request stays rejected.
    let (state, action) = step(state, BindEvent::Stamp(true));
    assert_eq!(state, BindState::Failed(Failure::SessionBindFailed, true));
    assert_eq!(action, BindAction::Reject);
}

#[test]
fn failed_stamp_of_an_anonymous_session_suggests_no_sign_out() {
    let (state, action) = step(BindState::Stamping(None), BindEvent::Stamp(false));
    assert_eq!(state, BindState::Failed(Failure::SessionBindFailed, false));
    assert_eq!(action, BindAction::DiscardAndReject);
    let error = rejection(&state, no_cause()).expect("failed");
    assert_eq!(error.actions(), Actions::default());
}

#[test]
fn unexpected_event_changes_nothing() {
    let (state, action) = step(BindState::Start, BindEvent::Stamp(true));
    assert_eq!(state, BindState::Start);
    assert_eq!(action, BindAction::AwaitRequest);
    let looking = BindState::LookingUp { username: "alice".to_owned(), secret: "pw1".to_owned() };
    let (state, action) = step(looking.clone(), BindEvent::Pool(PoolOutcome::Acquired));
    assert_eq!(state, looking);
    assert_eq!(action, BindAction::FindIdentity("alice".to_owned()));
    let (state, action) = step(BindState::Acquiring(Some(alice())), BindEvent::Stamp(true));
    assert_eq!(state, BindState::Acquiring(Some(alice())));
    assert_eq!(action, BindAction::AcquireConnection);
    let (state, action) =
        step(BindState::Stamping(Some(alice())), BindEvent::Pool(PoolOutcome::Acquired));
    assert_eq!(state, BindState::Stamping(Some(alice())));
    assert_eq!(action, BindAction::StampSession(7));
    let (state, action) = step(BindState::Bound(Some(alice())), request(None, None));
    assert_eq!(state, BindState::Bound(Some(alice())));
    assert_eq!(action, BindAction::Proceed);
}

#[test]
fn every_state_knows_what_it_waits_for() {
    assert_eq!(pending(&BindState::Start), BindAction::AwaitRequest);
    assert_eq!(pending(&BindState::Acquiring(None)), BindAction::AcquireConnection);
    assert_eq!(pending(&BindState::Stamping(None)), BindAction::StampSession(0));
    assert_eq!(pending(&BindState::Stamping(Some(alice()))), BindAction::StampSession(7));
    assert_eq!(pending(&BindState::Bound(None)), BindAction::Proceed);
    assert_eq!(pending(&BindState::Failed(Failure::Unauthorized, false)), BindAction::Reject);
}

#[test]
fn only_a_bound_request_has_a_context_and_only_a_failed_one_an_error() {
    assert_eq!(DatabaseConnection::bound(BindState::Start), None);
    assert_eq!(DatabaseConnection::bound(BindState::Acquiring(None)), None);
    assert_eq!(DatabaseConnection::bound(BindState::Stamping(Some(alice()))), None);
    assert!(rejection(&BindState::Start, no_cause()).is_none());
    assert!(rejection(&BindState::Bound(None), no_cause()).is_none());
    assert!(rejection(&BindState::Stamping(None), no_cause()).is_none());
}

#[test]
fn request_that_ends_returns_the_connection_it_holds() {
    let (state, action) = step(BindState::Bound(Some(alice())), BindEvent::Ended);
    assert_eq!(state, BindState::Closed);
    assert_eq!(action, BindAction::ReleaseConnection);
    let (state, action) = step(BindState::Stamping(None), BindEvent::Ended);
    assert_eq!(state, BindState::Closed);
    assert_eq!(action, BindAction::ReleaseConnection);
}

#[test]
fn request_that_ends_early_has_nothing_to_return() {
    let looking = BindState::LookingUp { username: "alice".to_owned(), secret: "pw1".to_owned() };
    for state in [BindState::Start, looking, BindState::Acquiring(Some(alice()))] {
        let (state, action) = step(state, BindEvent::Ended);
        assert_eq!(state, BindState::Closed);
        assert_eq!(action, BindAction::Done);
    }
}

#[test]
fn ended_request_stays_ended() {
    let failed = BindState::Failed(Failure::SessionBindFailed, true);
    let (state, action) = step(failed.clone(), BindEvent::Ended);
    assert_eq!(state, failed);
    assert_eq!(action, BindAction::Reject);
    for event in [
        BindEvent::Ended,
        BindEvent::Stamp(true),
        BindEvent::Pool(PoolOutcome::Acquired),
        BindEvent::Lookup(Lookup::NotFound),
        request(Some(b"Basic YWxpY2U6cHcx"), None),
    ] {
        let (state, action) = step(BindState::Closed, event);
        assert_eq!(state, BindState::Closed);
        assert_eq!(action, BindAction::Done);
    }
    assert_eq!(pending(&BindState::Closed), BindAction::Done);
    assert_eq!(DatabaseConnection::bound(BindState::Closed), None);
    assert!(rejection(&BindState::Closed, no_cause()).is_none());
}

fn held(state: &BindState) -> i32 {
    match state {
        BindState::Stamping(_) | BindState::Bound(_) => 1,
        _ => 0,
    }
}

fn given_up(action: &BindAction) -> i32 {
    match action {
        BindAction::ReleaseConnection | BindAction::DiscardAndReject => 1,
        _ => 0,
    }
}

#[test]
fn leases_balance_along_a_request() {
    let traces = vec![
        vec![
            request(None, None),
            BindEvent::Pool(PoolOutcome::Acquired),
            BindEvent::Stamp(true),
            BindEvent::Ended,
        ],
        vec![
            request(Some(b"Basic YWxpY2U6cHcx"), None),
            BindEvent::Lookup(Lookup::Found(alice_row())),
            BindEvent::Pool(PoolOutcome::Acquired),
            BindEvent::Stamp(false),
            BindEvent::Ended,
        ],
        vec![request(None, None), BindEvent::Pool(PoolOutcome::Acquired), BindEvent::Ended],
        vec![request(None, None), BindEvent::Pool(PoolOutcome::Exhausted), BindEvent::Ended],
    ];
    for trace in traces {
        let mut state = BindState::Start;
        let mut leased = 0;
        let mut returned = 0;
        for event in trace {
            let before = held(&state);
            let (next, action) = step(state, event);
            if before == 0 && held(&next) == 1 {
                leased += 1;
            }
            returned += given_up(&action);
            assert_eq!(held(&next), leased - returned);
            state = next;
        }
        assert_eq!(held(&state), 0);
        assert_eq!(leased, returned);
    }
}
