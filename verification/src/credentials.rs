//! The credential resolver: what a request claims about its caller.
//!
//! A claim can arrive in the authorization header or in the session cookie,
//! which carries the value the header would carry. The header is asked first.
//! A header that names a scheme and cannot be read fails the request; a carrier
//! that does not name the scheme is passed over.

use axum::http::HeaderValue;
use axum_extra::headers::authorization::{Basic, Bearer, Credentials};
use axum_extra::headers::Authorization;
use vstd::prelude::*;
use vstd::string::StringSliceAdditionalSpecFns;
use vstd::utf8::*;

use crate::error::Failure;
use crate::octets::{eq_ignore_ascii_case, prefix_eq_ignore_ascii_case};

verus! {

/// The username and password that a `Basic` header value carries, as the
/// `headers` crate decodes it; `None` where the bytes are no header value or
/// carry no such pair.
pub uninterp spec fn basic_credentials(value: Seq<u8>) -> Option<(Seq<char>, Seq<char>)>;

/// The token that a `Bearer` header value carries, as the `headers` crate
/// decodes it; `None` where the bytes are no header value or carry no token.
pub uninterp spec fn bearer_token(value: Seq<u8>) -> Option<Seq<char>>;

/// The `Basic` header value that the `headers` crate writes for a username and
/// a password; `None` where that value cannot be read as text.
pub uninterp spec fn basic_header_value(username: Seq<char>, password: Seq<char>) -> Option<
    Seq<char>,
>;

/// The scheme word of a username and password credential.
pub open spec fn basic_scheme() -> Seq<u8> {
    "Basic".spec_bytes()
}

/// The scheme word of a token credential.
pub open spec fn bearer_scheme() -> Seq<u8> {
    "Bearer".spec_bytes()
}

/// A value names a scheme when it starts with the scheme word, in any case,
/// followed by a space.
pub open spec fn spec_has_scheme(value: Seq<u8>, scheme: Seq<u8>) -> bool {
    &&& value.len() > scheme.len()
    &&& value[scheme.len() as int] == 0x20
    &&& eq_ignore_ascii_case(value.subrange(0, scheme.len() as int), scheme)
}

/// Whether `value` names `scheme`.
pub fn has_scheme(value: &[u8], scheme: &[u8]) -> (named: bool)
    ensures
        named == spec_has_scheme(value@, scheme@),
{
    value.len() > scheme.len() && value[scheme.len()] == 0x20 && prefix_eq_ignore_ascii_case(
        value,
        scheme,
    )
}

/// Calls `Basic::decode` of the `headers` crate on the header value made of
/// `value` by `HeaderValue::from_bytes`, and copies the username and the
/// password out.
///
/// Trusted: that the outcome depends on the bytes alone. The scheme is
/// required because `decode` may panic on a value that does not start with it.
#[verifier::external_body]
fn decode_basic(value: &[u8]) -> (credential: Option<(String, String)>)
    requires
        spec_has_scheme(value@, basic_scheme()),
    ensures
        match credential {
            Some((username, password)) => basic_credentials(value@) == Some(
                (username@, password@),
            ),
            None => basic_credentials(value@) is None,
        },
{
    let header = HeaderValue::from_bytes(value).ok()?;
    let basic = Basic::decode(&header)?;
    Some((basic.username().to_owned(), basic.password().to_owned()))
}

/// Calls `Bearer::decode` of the `headers` crate on the header value made of
/// `value` by `HeaderValue::from_bytes`, and copies the token out.
///
/// Trusted: that the outcome depends on the bytes alone. The scheme is
/// required because `decode` and `token` may panic on a value without it.
#[verifier::external_body]
fn decode_bearer(value: &[u8]) -> (token: Option<String>)
    requires
        spec_has_scheme(value@, bearer_scheme()),
    ensures
        match token {
            Some(t) => bearer_token(value@) == Some(t@),
            None => bearer_token(value@) is None,
        },
{
    let header = HeaderValue::from_bytes(value).ok()?;
    let bearer = Bearer::decode(&header)?;
    Some(bearer.token().to_owned())
}

/// Calls `Authorization::basic` of the `headers` crate, encodes the credential
/// with `Credentials::encode` and reads the header value as text.
///
/// Trusted: that the outcome depends on the username and password alone.
#[verifier::external_body]
pub(crate) fn encode_basic(username: &str, password: &str) -> (value: Option<String>)
    ensures
        match value {
            Some(v) => basic_header_value(username@, password@) == Some(v@),
            None => basic_header_value(username@, password@) is None,
        },
{
    let header = Authorization::basic(username, password).0.encode();
    header.to_str().ok().map(str::to_owned)
}

/// What a request claims about its caller.
#[derive(Clone, Debug, PartialEq, Eq)]
pub enum ResolvedCredential {
    /// A username and the secret offered for it.
    UsernamePassword(String, String),
    /// A token. Reserved: no identity is looked up for it.
    BearerToken(String),
    /// No claim at all.
    Anonymous,
}

/// What a [`ResolvedCredential`] holds.
pub enum CredentialView {
    UsernamePassword(Seq<char>, Seq<char>),
    BearerToken(Seq<char>),
    Anonymous,
}

impl View for ResolvedCredential {
    type V = CredentialView;

    open spec fn view(&self) -> CredentialView {
        match self {
            ResolvedCredential::UsernamePassword(username, secret) => {
                CredentialView::UsernamePassword(username@, secret@)
            },
            ResolvedCredential::BearerToken(token) => CredentialView::BearerToken(token@),
            ResolvedCredential::Anonymous => CredentialView::Anonymous,
        }
    }
}

/// What the authorization header yields for one scheme.
#[derive(Clone, Debug, PartialEq, Eq)]
pub enum HeaderClaim<T> {
    /// No header, or a header of another scheme.
    Absent,
    /// A header of the scheme whose credential cannot be read.
    Malformed,
    /// A header of the scheme, and what it carries.
    Parsed(T),
}

/// The view of what the header yields for the `Basic` scheme.
pub open spec fn basic_claim_view(claim: HeaderClaim<(String, String)>) -> HeaderClaim<
    (Seq<char>, Seq<char>),
> {
    match claim {
        HeaderClaim::Absent => HeaderClaim::Absent,
        HeaderClaim::Malformed => HeaderClaim::Malformed,
        HeaderClaim::Parsed((username, secret)) => HeaderClaim::Parsed((username@, secret@)),
    }
}

/// The view of what the header yields for the `Bearer` scheme.
pub open spec fn bearer_claim_view(claim: HeaderClaim<String>) -> HeaderClaim<Seq<char>> {
    match claim {
        HeaderClaim::Absent => HeaderClaim::Absent,
        HeaderClaim::Malformed => HeaderClaim::Malformed,
        HeaderClaim::Parsed(token) => HeaderClaim::Parsed(token@),
    }
}

/// The view of what the session cookie yields.
pub open spec fn cookie_claim_view(claim: Option<(String, String)>) -> Option<
    (Seq<char>, Seq<char>),
> {
    match claim {
        Some((username, secret)) => Some((username@, secret@)),
        None => None,
    }
}

/// The view of a resolution's outcome.
pub open spec fn resolution_view(outcome: Result<ResolvedCredential, Failure>) -> Result<
    CredentialView,
    Failure,
> {
    match outcome {
        Ok(credential) => Ok(credential@),
        Err(failure) => Err(failure),
    }
}

/// The order of precedence. A `Basic` header decides alone, for better or for
/// worse; without one the cookie is used where it holds a credential; without
/// that a `Bearer` header decides; and a request with none of them is
/// anonymous.
pub open spec fn spec_choose_credential(
    basic_header: HeaderClaim<(Seq<char>, Seq<char>)>,
    cookie: Option<(Seq<char>, Seq<char>)>,
    bearer_header: HeaderClaim<Seq<char>>,
) -> Result<CredentialView, Failure> {
    match basic_header {
        HeaderClaim::Parsed((username, secret)) => Ok(
            CredentialView::UsernamePassword(username, secret),
        ),
        HeaderClaim::Malformed => Err(Failure::BadCredentialFormat),
        HeaderClaim::Absent => match cookie {
            Some((username, secret)) => Ok(CredentialView::UsernamePassword(username, secret)),
            None => match bearer_header {
                HeaderClaim::Parsed(token) => Ok(CredentialView::BearerToken(token)),
                HeaderClaim::Malformed => Err(Failure::BadCredentialFormat),
                HeaderClaim::Absent => Ok(CredentialView::Anonymous),
            },
        },
    }
}

/// Picks the caller's claim from what each carrier yields.
pub fn choose_credential(
    basic_header: HeaderClaim<(String, String)>,
    cookie: Option<(String, String)>,
    bearer_header: HeaderClaim<String>,
) -> (outcome: Result<ResolvedCredential, Failure>)
    ensures
        resolution_view(outcome) == spec_choose_credential(
            basic_claim_view(basic_header),
            cookie_claim_view(cookie),
            bearer_claim_view(bearer_header),
        ),
{
    match basic_header {
        HeaderClaim::Parsed((username, secret)) => Ok(
            ResolvedCredential::UsernamePassword(username, secret),
        ),
        HeaderClaim::Malformed => Err(Failure::BadCredentialFormat),
        HeaderClaim::Absent => match cookie {
            Some((username, secret)) => Ok(ResolvedCredential::UsernamePassword(username, secret)),
            None => match bearer_header {
                HeaderClaim::Parsed(token) => Ok(ResolvedCredential::BearerToken(token)),
                HeaderClaim::Malformed => Err(Failure::BadCredentialFormat),
                HeaderClaim::Absent => Ok(ResolvedCredential::Anonymous),
            },
        },
    }
}

/// What the authorization header yields for the `Basic` scheme.
pub open spec fn spec_basic_claim(authorization: Option<Seq<u8>>) -> HeaderClaim<
    (Seq<char>, Seq<char>),
> {
    match authorization {
        Some(value) if spec_has_scheme(value, basic_scheme()) => match basic_credentials(value) {
            Some(pair) => HeaderClaim::Parsed(pair),
            None => HeaderClaim::Malformed,
        },
        _ => HeaderClaim::Absent,
    }
}

/// What the authorization header yields for the `Bearer` scheme.
pub open spec fn spec_bearer_claim(authorization: Option<Seq<u8>>) -> HeaderClaim<Seq<char>> {
    match authorization {
        Some(value) if spec_has_scheme(value, bearer_scheme()) => match bearer_token(value) {
            Some(token) => HeaderClaim::Parsed(token),
            None => HeaderClaim::Malformed,
        },
        _ => HeaderClaim::Absent,
    }
}

/// What the session cookie yields: the credential that its value carries when
/// read as a `Basic` header value, and nothing where it carries none.
pub open spec fn spec_cookie_claim(session: Option<Seq<char>>) -> Option<(Seq<char>, Seq<char>)> {
    match session {
        Some(value) if spec_has_scheme(encode_utf8(value), basic_scheme()) => basic_credentials(
            encode_utf8(value),
        ),
        _ => None,
    }
}

/// The claim of a request with the given authorization header value and
/// session cookie value.
pub open spec fn spec_resolve(authorization: Option<Seq<u8>>, session: Option<Seq<char>>) -> Result<
    CredentialView,
    Failure,
> {
    spec_choose_credential(
        spec_basic_claim(authorization),
        spec_cookie_claim(session),
        spec_bearer_claim(authorization),
    )
}

/// The bytes of an optional header value.
pub open spec fn header_view(authorization: Option<&[u8]>) -> Option<Seq<u8>> {
    match authorization {
        Some(value) => Some(value@),
        None => None,
    }
}

/// The text of an optional cookie value.
pub open spec fn cookie_view(session: Option<&str>) -> Option<Seq<char>> {
    match session {
        Some(value) => Some(value@),
        None => None,
    }
}

/// Reads the authorization header for the `Basic` scheme.
pub fn basic_claim(authorization: Option<&[u8]>) -> (claim: HeaderClaim<(String, String)>)
    ensures
        basic_claim_view(claim) == spec_basic_claim(header_view(authorization)),
{
    match authorization {
        Some(value) => {
            if has_scheme(value, "Basic".as_bytes()) {
                match decode_basic(value) {
                    Some(pair) => HeaderClaim::Parsed(pair),
                    None => HeaderClaim::Malformed,
                }
            } else {
                HeaderClaim::Absent
            }
        },
        None => HeaderClaim::Absent,
    }
}

/// Reads the authorization header for the `Bearer` scheme.
pub fn bearer_claim(authorization: Option<&[u8]>) -> (claim: HeaderClaim<String>)
    ensures
        bearer_claim_view(claim) == spec_bearer_claim(header_view(authorization)),
{
    match authorization {
        Some(value) => {
            if has_scheme(value, "Bearer".as_bytes()) {
                match decode_bearer(value) {
                    Some(token) => HeaderClaim::Parsed(token),
                    None => HeaderClaim::Malformed,
                }
            } else {
                HeaderClaim::Absent
            }
        },
        None => HeaderClaim::Absent,
    }
}

/// Reads the session cookie as a `Basic` credential.
pub fn cookie_claim(session: Option<&str>) -> (claim: Option<(String, String)>)
    ensures
        cookie_claim_view(claim) == spec_cookie_claim(cookie_view(session)),
{
    match session {
        Some(value) => {
            let bytes = value.as_bytes();
            if has_scheme(bytes, "Basic".as_bytes()) {
                decode_basic(bytes)
            } else {
                None
            }
        },
        None => None,
    }
}

/// Resolves the caller's claim from the first authorization header value and
/// the value of the session cookie.
///
/// Fails with [`Failure::BadCredentialFormat`] exactly when the header names a
/// scheme that decides and its credential cannot be read.
pub fn resolve(authorization: Option<&[u8]>, session: Option<&str>) -> (outcome: Result<
    ResolvedCredential,
    Failure,
>)
    ensures
        resolution_view(outcome) == spec_resolve(header_view(authorization), cookie_view(session)),
{
    choose_credential(
        basic_claim(authorization),
        cookie_claim(session),
        bearer_claim(authorization),
    )
}

/// Precedence: a header that carries a `Basic` credential decides, whatever
/// the session cookie holds.
pub proof fn lemma_header_takes_precedence(
    authorization: Seq<u8>,
    session: Option<Seq<char>>,
    username: Seq<char>,
    secret: Seq<char>,
)
    requires
        spec_has_scheme(authorization, basic_scheme()),
        basic_credentials(authorization) == Some((username, secret)),
    ensures
        spec_resolve(Some(authorization), session) == Ok::<CredentialView, Failure>(
            CredentialView::UsernamePassword(username, secret),
        ),
{
}

/// A header that names the `Basic` scheme and cannot be read fails the
/// request, whatever the session cookie holds.
pub proof fn lemma_malformed_header_short_circuits(
    authorization: Seq<u8>,
    session: Option<Seq<char>>,
)
    requires
        spec_has_scheme(authorization, basic_scheme()),
        basic_credentials(authorization) is None,
    ensures
        spec_resolve(Some(authorization), session) == Err::<CredentialView, Failure>(
            Failure::BadCredentialFormat,
        ),
{
}

/// A request without an authorization header and without a session cookie is
/// anonymous.
pub proof fn lemma_no_carrier_is_anonymous()
    ensures
        spec_resolve(None, None) == Ok::<CredentialView, Failure>(CredentialView::Anonymous),
{
}

} // verus!
