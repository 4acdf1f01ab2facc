//! The identity loader: holding a claim against the stored identity.

use vstd::prelude::*;
use vstd::std_specs::convert::FromSpecImpl;

use crate::credentials::{CredentialView, ResolvedCredential};
use crate::digest::{
    blake3_collides, credential_stream, hash, lemma_secret_separates_streams, spec_hash, Digest,
    DIGEST_LEN,
};
use crate::error::Failure;

verus! {

/// The id that stands for "no caller" wherever an id is needed.
pub const ANONYMOUS_ID: i32 = 0;

/// An authenticated caller.
#[derive(Clone, Debug, Default, PartialEq, Eq)]
pub struct User {
    pub id: i32,
    pub username: String,
}

/// What a [`User`] holds.
pub struct UserView {
    pub id: i32,
    pub username: Seq<char>,
}

impl View for User {
    type V = UserView;

    open spec fn view(&self) -> UserView {
        UserView { id: self.id, username: self.username@ }
    }
}

/// The view of a caller that may be absent.
pub open spec fn caller_view(user: Option<User>) -> Option<UserView> {
    match user {
        Some(u) => Some(u@),
        None => None,
    }
}

/// The id under which a caller's queries run: its own, or the anonymous id.
pub open spec fn spec_caller_id(user: Option<UserView>) -> i32 {
    match user {
        Some(u) => u.id,
        None => ANONYMOUS_ID,
    }
}

/// The id under which `user`'s queries run.
pub fn caller_id(user: &Option<User>) -> (id: i32)
    ensures
        id == spec_caller_id(caller_view(*user)),
{
    match user {
        Some(u) => u.id,
        None => ANONYMOUS_ID,
    }
}

/// A username and password as a client submits them.
#[derive(Clone, Debug, Default, PartialEq, Eq)]
pub struct Login {
    pub username: String,
    pub password: String,
}

/// A new or changed identity as it is written to storage: the password is
/// replaced by its digest.
#[derive(Clone, Debug, PartialEq, Eq)]
pub struct InsertableDatabaseUser {
    pub username: String,
    pub password: Digest,
}

impl InsertableDatabaseUser {
    /// The row for a credential: the username as given, and the digest of the
    /// username and the secret.
    pub fn from_credential(username: String, secret: &str) -> (row: InsertableDatabaseUser)
        ensures
            row.username == username,
            row.password@ == spec_hash(username@, secret@),
    {
        let password = hash(username.as_str(), secret);
        InsertableDatabaseUser { username, password }
    }
}

impl FromSpecImpl<Login> for InsertableDatabaseUser {
    open spec fn obeys_from_spec() -> bool {
        true
    }

    /// The row for a submitted login: its username, and the digest of its
    /// username and password.
    open spec fn from_spec(login: Login) -> InsertableDatabaseUser {
        InsertableDatabaseUser {
            username: login.username,
            password: Digest::spec_of(spec_hash(login.username@, login.password@)),
        }
    }
}

impl From<Login> for InsertableDatabaseUser {
    fn from(login: Login) -> (row: InsertableDatabaseUser)
        ensures
            row.username == login.username,
            row.password@ == spec_hash(login.username@, login.password@),
    {
        let Login { username, password } = login;
        let row = InsertableDatabaseUser::from_credential(username, password.as_str());
        proof {
            row.password.lemma_bytes_determine(row.password);
        }
        row
    }
}

/// A stored identity as it is read from storage.
#[derive(Clone, Debug, PartialEq, Eq)]
pub struct DatabaseUser {
    pub id: i32,
    pub username: String,
    pub password: Digest,
}

/// What a [`DatabaseUser`] holds.
pub struct DatabaseUserView {
    pub id: i32,
    pub username: Seq<char>,
    pub password: Seq<u8>,
}

impl View for DatabaseUser {
    type V = DatabaseUserView;

    open spec fn view(&self) -> DatabaseUserView {
        DatabaseUserView { id: self.id, username: self.username@, password: self.password@ }
    }
}

impl DatabaseUser {
    /// Reads a stored identity whose digest comes as the bytes of a binary
    /// column: `Some` exactly when they are the 32 bytes of a digest.
    pub fn from_stored(id: i32, username: String, stored: &[u8]) -> (row: Option<DatabaseUser>)
        ensures
            row is Some <==> stored@.len() == DIGEST_LEN,
            row is Some ==> row->0@ == (DatabaseUserView {
                id,
                username: username@,
                password: stored@,
            }),
    {
        match Digest::from_slice(stored) {
            Some(password) => Some(DatabaseUser { id, username, password }),
            None => None,
        }
    }
}

/// What the search for an identity by its username came to.
#[derive(Clone, Debug, PartialEq, Eq)]
pub enum Lookup {
    /// The stored identity of that name.
    Found(DatabaseUser),
    /// Storage holds no identity of that name.
    NotFound,
    /// Storage could not be asked.
    Unavailable,
}

/// What a [`Lookup`] holds.
pub enum LookupView {
    Found(DatabaseUserView),
    NotFound,
    Unavailable,
}

impl View for Lookup {
    type V = LookupView;

    open spec fn view(&self) -> LookupView {
        match self {
            Lookup::Found(row) => LookupView::Found(row@),
            Lookup::NotFound => LookupView::NotFound,
            Lookup::Unavailable => LookupView::Unavailable,
        }
    }
}

/// The username to search for: that of a username and password claim. No
/// other claim is looked up.
pub open spec fn spec_lookup_key(credential: CredentialView) -> Option<Seq<char>> {
    match credential {
        CredentialView::UsernamePassword(username, _) => Some(username),
        _ => None,
    }
}

/// The caller that a claim and the outcome of its lookup establish.
///
/// A claim without a username establishes no caller, and neither does a
/// username that storage does not hold. A stored identity is the caller where
/// the digest of the claim equals the stored one, byte for byte; where it does
/// not, the request fails.
pub open spec fn spec_load(credential: CredentialView, lookup: LookupView) -> Result<
    Option<UserView>,
    Failure,
> {
    match credential {
        CredentialView::UsernamePassword(username, secret) => match lookup {
            LookupView::Found(row) => if row.password == spec_hash(username, secret) {
                Ok(Some(UserView { id: row.id, username: row.username }))
            } else {
                Err(Failure::Unauthorized)
            },
            LookupView::NotFound => Ok(None),
            LookupView::Unavailable => Err(Failure::StorageUnavailable),
        },
        _ => Ok(None),
    }
}

/// The view of a loader's outcome.
pub open spec fn load_view(outcome: Result<Option<User>, Failure>) -> Result<
    Option<UserView>,
    Failure,
> {
    match outcome {
        Ok(user) => Ok(caller_view(user)),
        Err(failure) => Err(failure),
    }
}

/// The username to search for, if the claim has one.
pub fn lookup_key(credential: &ResolvedCredential) -> (key: Option<&str>)
    ensures
        match key {
            Some(username) => spec_lookup_key(credential@) == Some(username@),
            None => spec_lookup_key(credential@) is None,
        },
{
    match credential {
        ResolvedCredential::UsernamePassword(username, _) => Some(username.as_str()),
        _ => None,
    }
}

/// Establishes the caller from a claim and the outcome of its lookup.
///
/// Fails with [`Failure::Unauthorized`] exactly when an identity was found and
/// the digests differ, and with [`Failure::StorageUnavailable`] exactly when a
/// username was claimed and storage could not be asked.
pub fn load(credential: ResolvedCredential, lookup: Lookup) -> (outcome: Result<
    Option<User>,
    Failure,
>)
    ensures
        load_view(outcome) == spec_load(credential@, lookup@),
{
    match credential {
        ResolvedCredential::UsernamePassword(username, secret) => match lookup {
            Lookup::Found(row) => {
                let attempt = hash(username.as_str(), secret.as_str());
                if attempt.matches(&row.password) {
                    Ok(Some(User { id: row.id, username: row.username }))
                } else {
                    Err(Failure::Unauthorized)
                }
            },
            Lookup::NotFound => Ok(None),
            Lookup::Unavailable => Err(Failure::StorageUnavailable),
        },
        _ => Ok(None),
    }
}

/// The caller of a request that needs one: a request without a caller fails
/// with [`Failure::Unauthorized`].
pub fn require_user(user: Option<User>) -> (outcome: Result<User, Failure>)
    ensures
        match user {
            Some(u) => outcome == Ok::<User, Failure>(u),
            None => outcome == Err::<User, Failure>(Failure::Unauthorized),
        },
{
    match user {
        Some(u) => Ok(u),
        None => Err(Failure::Unauthorized),
    }
}

/// Round trip: an identity stored for a username and a secret is the caller
/// of a claim with that username and that secret.
pub proof fn lemma_stored_credential_authenticates(
    id: i32,
    username: Seq<char>,
    secret: Seq<char>,
)
    ensures
        spec_load(
            CredentialView::UsernamePassword(username, secret),
            LookupView::Found(
                DatabaseUserView { id, username, password: spec_hash(username, secret) },
            ),
        ) == Ok::<Option<UserView>, Failure>(Some(UserView { id, username })),
{
}

/// Round trip, the other way: another secret than the stored identity's is
/// refused, unless BLAKE3 collides on the streams of the two.
pub proof fn lemma_other_secret_is_unauthorized(
    id: i32,
    username: Seq<char>,
    secret: Seq<char>,
    offered: Seq<char>,
)
    requires
        offered != secret,
        !blake3_collides(
            credential_stream(username, offered),
            credential_stream(username, secret),
        ),
    ensures
        spec_load(
            CredentialView::UsernamePassword(username, offered),
            LookupView::Found(
                DatabaseUserView { id, username, password: spec_hash(username, secret) },
            ),
        ) == Err::<Option<UserView>, Failure>(Failure::Unauthorized),
{
    lemma_secret_separates_streams(username, offered, secret);
}

/// A request without a claim has no caller, whatever storage holds.
pub proof fn lemma_anonymous_has_no_caller(lookup: LookupView)
    ensures
        spec_load(CredentialView::Anonymous, lookup) == Ok::<Option<UserView>, Failure>(None),
{
}

} // verus!
