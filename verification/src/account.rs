//! Signing up, logging in, changing a login and logging out: what each comes
//! to once storage has answered.
//!
//! The session cookie carries the value that the authorization header would
//! carry for the same username and password. It is a credential that the
//! client presents again, not a token that the server issued: whoever holds
//! the cookie holds the password, and logging out removes the cookie and
//! nothing on the server.

use vstd::prelude::*;

use crate::credentials::{basic_header_value, encode_basic};
use crate::digest::{hash, spec_hash};
use crate::error::{
    Actions, ActionsView, Error, Report, BAD_REQUEST, INTERNAL_SERVER_ERROR, UNAUTHORIZED,
};
use crate::identity::{caller_view, Login, Lookup, LookupView, User};

verus! {

/// A cookie to set, or to remove, at the client.
#[derive(Clone, Debug, PartialEq, Eq)]
pub struct SessionCookie {
    pub name: &'static str,
    pub value: String,
    pub path: &'static str,
}

impl SessionCookie {
    /// The session cookie with `value`: named `sessionid`, for every path.
    pub open spec fn carries(&self, value: Seq<char>) -> bool {
        &&& self.name@ == "sessionid"@
        &&& self.value@ == value
        &&& self.path@ == "/"@
    }

    /// The cookie whose removal logs the client out: the session cookie
    /// without a value.
    pub fn removal() -> (cookie: SessionCookie)
        ensures
            cookie.carries(Seq::<char>::empty()),
    {
        SessionCookie { name: "sessionid", value: String::new(), path: "/" }
    }
}

/// What writing the session cookie for a username and a password comes to:
/// the cookie whose value is the authorization header value of the two, or
/// status 500 where that value cannot be written as text.
pub open spec fn is_session_cookie_for(
    outcome: Result<SessionCookie, Error>,
    encoded: Option<Seq<char>>,
) -> bool {
    match encoded {
        Some(value) => outcome is Ok && outcome->Ok_0.carries(value),
        None => outcome is Err && outcome->Err_0.is_root(
            INTERNAL_SERVER_ERROR,
            "Failed to encode sessionid"@,
            ActionsView::plain(),
        ),
    }
}

/// What a write to storage on behalf of a login comes to: the session cookie
/// where the write succeeded, and status 400 with `description` in front of
/// the cause where it did not.
pub open spec fn is_written(
    outcome: Result<SessionCookie, Error>,
    login: Login,
    written: Result<(), Report>,
    description: Seq<char>,
) -> bool {
    match written {
        Ok(_) => is_session_cookie_for(
            outcome,
            basic_header_value(login.username@, login.password@),
        ),
        Err(cause) => outcome is Err && outcome->Err_0.wraps(
            BAD_REQUEST,
            description,
            cause,
            ActionsView::plain(),
        ),
    }
}

/// The session cookie for an encoded credential; status 500 where the
/// credential could not be encoded.
pub fn session_cookie_from(encoded: Option<String>) -> (outcome: Result<SessionCookie, Error>)
    ensures
        is_session_cookie_for(
            outcome,
            match encoded {
                Some(value) => Some(value@),
                None => None,
            },
        ),
{
    match encoded {
        Some(value) => Ok(SessionCookie { name: "sessionid", value, path: "/" }),
        None => Err(
            Error::root(INTERNAL_SERVER_ERROR, "Failed to encode sessionid", Actions::default()),
        ),
    }
}

/// The session cookie for a login: its value is the authorization header
/// value of the same username and password.
pub fn session_cookie(login: &Login) -> (outcome: Result<SessionCookie, Error>)
    ensures
        is_session_cookie_for(outcome, basic_header_value(login.username@, login.password@)),
{
    session_cookie_from(encode_basic(login.username.as_str(), login.password.as_str()))
}

fn after_write(login: &Login, written: Result<(), Report>, description: &'static str) -> (outcome:
    Result<SessionCookie, Error>)
    ensures
        is_written(outcome, *login, written, description@),
{
    match written {
        Ok(_) => session_cookie(login),
        Err(cause) => Err(Error::wrapping(BAD_REQUEST, description, cause, Actions::default())),
    }
}

/// Ends a signup. `inserted` is what writing the new identity came to.
///
/// The client is given the session cookie of the new login where the identity
/// was written, and status 400 where it was not.
pub fn signup(new_user: &Login, inserted: Result<(), Report>) -> (outcome: Result<
    SessionCookie,
    Error,
>)
    ensures
        is_written(outcome, *new_user, inserted, "Failed to insert user into database"@),
{
    after_write(new_user, inserted, "Failed to insert user into database")
}

/// Ends a change of login. `updated` is what writing the changed identity
/// came to.
///
/// The client is given the session cookie of the changed login where the
/// identity was written, and status 400 where it was not.
pub fn patch_login(changeset: &Login, updated: Result<(), Report>) -> (outcome: Result<
    SessionCookie,
    Error,
>)
    ensures
        is_written(outcome, *changeset, updated, "Failed to update user in database"@),
{
    after_write(changeset, updated, "Failed to update user in database")
}

/// What a login comes to, before the cookie is written.
#[derive(Clone, Copy, Debug, PartialEq, Eq)]
pub enum LoginVerdict {
    /// The stored digest is the digest of the submitted login.
    Accepted,
    /// An identity was found and the digests differ: status 401, sign-out.
    Refused,
    /// Storage holds no identity of that name: status 400.
    Unknown,
    /// Storage could not be asked: status 500.
    Unavailable,
}

/// The verdict on a submitted login, given what the search for its username
/// came to.
pub open spec fn spec_login_verdict(
    username: Seq<char>,
    password: Seq<char>,
    lookup: LookupView,
) -> LoginVerdict {
    match lookup {
        LookupView::Found(row) => if row.password == spec_hash(username, password) {
            LoginVerdict::Accepted
        } else {
            LoginVerdict::Refused
        },
        LookupView::NotFound => LoginVerdict::Unknown,
        LookupView::Unavailable => LoginVerdict::Unavailable,
    }
}

/// Ends a login. `lookup` is what the search for the submitted username came
/// to, and `cause` the report of what went wrong where it found nothing.
///
/// The client is given the session cookie where the stored digest is that of
/// the submitted login. A wrong password is refused with status 401 and the
/// advice to sign out; an unknown username with status 400; storage that
/// could not be asked with status 500.
pub fn login(new_user: &Login, lookup: Lookup, cause: Report) -> (outcome: Result<
    SessionCookie,
    Error,
>)
    ensures
        match spec_login_verdict(new_user.username@, new_user.password@, lookup@) {
            LoginVerdict::Accepted => is_session_cookie_for(
                outcome,
                basic_header_value(new_user.username@, new_user.password@),
            ),
            LoginVerdict::Refused => outcome is Err && outcome->Err_0.is_root(
                UNAUTHORIZED,
                "Invalid username or password"@,
                ActionsView::with_sign_out(),
            ),
            LoginVerdict::Unknown => outcome is Err && outcome->Err_0.wraps(
                BAD_REQUEST,
                "Failed to get user from database"@,
                cause,
                ActionsView::plain(),
            ),
            LoginVerdict::Unavailable => outcome is Err && outcome->Err_0.wraps(
                INTERNAL_SERVER_ERROR,
                "Failed to get user from database"@,
                cause,
                ActionsView::plain(),
            ),
        },
{
    match lookup {
        Lookup::Found(row) => {
            let attempt = hash(new_user.username.as_str(), new_user.password.as_str());
            if attempt.matches(&row.password) {
                session_cookie(new_user)
            } else {
                Err(Error::root(UNAUTHORIZED, "Invalid username or password", Actions::sign_out()))
            }
        },
        Lookup::NotFound => Err(
            Error::wrapping(
                BAD_REQUEST,
                "Failed to get user from database",
                cause,
                Actions::default(),
            ),
        ),
        Lookup::Unavailable => Err(
            Error::wrapping(
                INTERNAL_SERVER_ERROR,
                "Failed to get user from database",
                cause,
                Actions::default(),
            ),
        ),
    }
}

/// Ends a logout: the session cookie is removed, whoever asks.
pub fn logout() -> (cookie: SessionCookie)
    ensures
        cookie.carries(Seq::<char>::empty()),
{
    SessionCookie::removal()
}

/// The query of the login form.
#[derive(Clone, Copy, Debug, PartialEq, Eq)]
pub struct EditQuery {
    pub edit: Option<bool>,
}

/// What the login form is rendered from.
#[derive(Clone, Debug, PartialEq, Eq)]
pub struct LoginTemplate {
    pub user: Option<User>,
    pub editing: bool,
}

/// The login form for a caller: editable exactly where the query asks for it.
pub fn get_login(user: Option<User>, edit: EditQuery) -> (form: LoginTemplate)
    ensures
        caller_view(form.user) == caller_view(user),
        form.editing == (edit.edit == Some(true)),
{
    let editing = match edit.edit {
        Some(flag) => flag,
        None => false,
    };
    LoginTemplate { user, editing }
}

} // verus!
