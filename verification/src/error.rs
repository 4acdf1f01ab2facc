//! Failures and how they are shown: the kinds a request can fail with, the
//! status and suggested actions of each, and the document a client receives.

use axum::http::StatusCode;
use vstd::prelude::*;
use vstd::string::StringExecFns;

verus! {

/// The status sent with a malformed credential.
pub const BAD_REQUEST: u16 = 400;

/// The status sent with a wrong or missing credential.
pub const UNAUTHORIZED: u16 = 401;

/// The status sent when storage, the pool or the session stamp fails.
pub const INTERNAL_SERVER_ERROR: u16 = 500;

/// A status code that HTTP can carry: three decimal digits, the first not zero.
pub open spec fn is_status_code(code: u16) -> bool {
    100 <= code <= 999
}

/// The buttons offered with a failure.
#[derive(Clone, Copy, Debug, PartialEq, Eq)]
pub struct Actions {
    /// The label of the sign-out button, where the caller should discard the
    /// credential it has cached.
    pub sign_out: Option<&'static str>,
    /// Whether a plain acknowledgement is offered.
    pub ok: bool,
}

/// What an [`Actions`] value holds.
pub struct ActionsView {
    pub sign_out: Option<Seq<char>>,
    pub ok: bool,
}

impl View for Actions {
    type V = ActionsView;

    open spec fn view(&self) -> ActionsView {
        ActionsView {
            sign_out: match self.sign_out {
                Some(label) => Some(label@),
                None => None,
            },
            ok: self.ok,
        }
    }
}

impl ActionsView {
    /// Acknowledgement only.
    pub open spec fn plain() -> ActionsView {
        ActionsView { sign_out: None, ok: true }
    }

    /// Acknowledgement and sign-out.
    pub open spec fn with_sign_out() -> ActionsView {
        ActionsView { sign_out: Some("Sign out"@), ok: true }
    }
}

impl Default for Actions {
    fn default() -> (actions: Actions)
        ensures
            actions@ == ActionsView::plain(),
    {
        Actions { sign_out: None, ok: true }
    }
}

impl Actions {
    /// The actions of a failure after which the cached credential is of no use.
    pub fn sign_out() -> (actions: Actions)
        ensures
            actions@ == ActionsView::with_sign_out(),
    {
        Actions { sign_out: Some("Sign out"), ok: true }
    }
}

/// One frame of a call trace.
#[derive(Clone, Debug, PartialEq, Eq)]
pub struct Frame {
    pub module: Option<String>,
    pub name: String,
    pub file: Option<String>,
    pub line: Option<u32>,
    pub fields: String,
}

/// An underlying error as this crate reads it: the descriptions of the error
/// and of its causes, outermost first, and the call trace captured with it.
#[derive(Clone, Debug, PartialEq, Eq)]
pub struct Report {
    pub chain: Vec<String>,
    pub spantrace: Vec<Frame>,
}

impl Report {
    /// A report of a root cause: one description, no trace.
    pub fn msg(message: String) -> (report: Report)
        ensures
            report.chain@ == seq![message],
            report.spantrace@.len() == 0,
    {
        let mut chain: Vec<String> = Vec::new();
        chain.push(message);
        Report { chain, spantrace: Vec::new() }
    }

    /// Puts `message` in front of the chain; the report becomes its cause.
    pub fn wrap_err(self, message: String) -> (report: Report)
        ensures
            report.chain@ == seq![message] + self.chain@,
            report.spantrace == self.spantrace,
    {
        let Report { chain, spantrace } = self;
        let mut chain = chain;
        chain.insert(0, message);
        proof {
            assert(chain@ =~= seq![message] + self.chain@);
        }
        Report { chain, spantrace }
    }
}

/// The kinds of failure that resolving a caller can end in.
#[derive(Clone, Copy, Debug, PartialEq, Eq, Structural)]
pub enum Failure {
    /// A header named a scheme and its credential could not be read.
    BadCredentialFormat,
    /// A credential was given and it is wrong, or a caller was needed and none
    /// was given.
    Unauthorized,
    /// The identity lookup could not be reached.
    StorageUnavailable,
    /// No connection came free in time.
    PoolExhausted,
    /// The pool's backend failed.
    PoolUnavailable,
    /// The statement that stamps the session failed.
    SessionBindFailed,
}

/// The steps in which resolving a caller can fail.
#[derive(Clone, Copy, Debug, PartialEq, Eq, Structural)]
pub enum Stage {
    /// Reading the claim and holding it against storage.
    Resolution,
    /// Leasing a connection from the pool.
    Lease,
    /// Stamping the leased connection's session.
    Stamp,
}

impl Failure {
    /// The step that fails with each kind.
    pub open spec fn spec_stage(self) -> Stage {
        match self {
            Failure::BadCredentialFormat => Stage::Resolution,
            Failure::Unauthorized => Stage::Resolution,
            Failure::StorageUnavailable => Stage::Resolution,
            Failure::PoolExhausted => Stage::Lease,
            Failure::PoolUnavailable => Stage::Lease,
            Failure::SessionBindFailed => Stage::Stamp,
        }
    }

    /// The status of each kind: 400 for a malformed credential, 401 for a wrong
    /// one, 500 for everything that is the server's fault.
    pub open spec fn spec_status_code(self) -> u16 {
        match self {
            Failure::BadCredentialFormat => BAD_REQUEST,
            Failure::Unauthorized => UNAUTHORIZED,
            Failure::StorageUnavailable => INTERNAL_SERVER_ERROR,
            Failure::PoolExhausted => INTERNAL_SERVER_ERROR,
            Failure::PoolUnavailable => INTERNAL_SERVER_ERROR,
            Failure::SessionBindFailed => INTERNAL_SERVER_ERROR,
        }
    }

    /// Whether the caller should discard its cached credential. A credential
    /// that could not be read, was wrong or could not be looked up is of no
    /// use; a failed stamp taints it only where a caller had been found. That
    /// the pool gave no connection says nothing about the credential.
    pub open spec fn spec_suggests_sign_out(self, authenticated: bool) -> bool {
        match self {
            Failure::BadCredentialFormat => true,
            Failure::Unauthorized => true,
            Failure::StorageUnavailable => true,
            Failure::PoolExhausted => false,
            Failure::PoolUnavailable => false,
            Failure::SessionBindFailed => authenticated,
        }
    }

    /// The description that heads the chain of each kind.
    pub open spec fn spec_message(self) -> Seq<char> {
        match self {
            Failure::BadCredentialFormat => "Failed to parse auth header"@,
            Failure::Unauthorized => "Passwords didn't match"@,
            Failure::StorageUnavailable => "Failed to get user from database"@,
            Failure::PoolExhausted => "Timed out waiting for a connection to database"@,
            Failure::PoolUnavailable => "Failed to get connection to database"@,
            Failure::SessionBindFailed => "Failed to set user id on connection"@,
        }
    }

    /// The actions offered with each kind.
    pub open spec fn spec_actions(self, authenticated: bool) -> ActionsView {
        if self.spec_suggests_sign_out(authenticated) {
            ActionsView::with_sign_out()
        } else {
            ActionsView::plain()
        }
    }

    pub fn stage(self) -> (stage: Stage)
        ensures
            stage == self.spec_stage(),
    {
        match self {
            Failure::BadCredentialFormat => Stage::Resolution,
            Failure::Unauthorized => Stage::Resolution,
            Failure::StorageUnavailable => Stage::Resolution,
            Failure::PoolExhausted => Stage::Lease,
            Failure::PoolUnavailable => Stage::Lease,
            Failure::SessionBindFailed => Stage::Stamp,
        }
    }

    pub fn status_code(self) -> (code: u16)
        ensures
            code == self.spec_status_code(),
            is_status_code(code),
    {
        match self {
            Failure::BadCredentialFormat => BAD_REQUEST,
            Failure::Unauthorized => UNAUTHORIZED,
            _ => INTERNAL_SERVER_ERROR,
        }
    }

    pub fn suggests_sign_out(self, authenticated: bool) -> (suggested: bool)
        ensures
            suggested == self.spec_suggests_sign_out(authenticated),
    {
        match self {
            Failure::BadCredentialFormat => true,
            Failure::Unauthorized => true,
            Failure::StorageUnavailable => true,
            Failure::PoolExhausted => false,
            Failure::PoolUnavailable => false,
            Failure::SessionBindFailed => authenticated,
        }
    }

    pub fn message(self) -> (message: &'static str)
        ensures
            message@ == self.spec_message(),
    {
        match self {
            Failure::BadCredentialFormat => "Failed to parse auth header",
            Failure::Unauthorized => "Passwords didn't match",
            Failure::StorageUnavailable => "Failed to get user from database",
            Failure::PoolExhausted => "Timed out waiting for a connection to database",
            Failure::PoolUnavailable => "Failed to get connection to database",
            Failure::SessionBindFailed => "Failed to set user id on connection",
        }
    }

    pub fn actions(self, authenticated: bool) -> (actions: Actions)
        ensures
            actions@ == self.spec_actions(authenticated),
    {
        if self.suggests_sign_out(authenticated) {
            Actions::sign_out()
        } else {
            Actions::default()
        }
    }
}

/// A failure as it leaves the server: a status, the underlying report and the
/// actions suggested to the client.
#[derive(Debug)]
pub struct Error {
    status_code: u16,
    error: Report,
    actions: Actions,
}

/// What an [`Error`] holds.
pub struct ErrorView {
    pub status_code: u16,
    pub chain: Seq<String>,
    pub spantrace: Seq<Frame>,
    pub actions: ActionsView,
}

impl View for Error {
    type V = ErrorView;

    closed spec fn view(&self) -> ErrorView {
        ErrorView {
            status_code: self.status_code,
            chain: self.error.chain@,
            spantrace: self.error.spantrace@,
            actions: self.actions@,
        }
    }
}

impl Error {
    #[verifier::type_invariant]
    spec fn status_is_valid(&self) -> bool {
        is_status_code(self.status_code)
    }

    /// Every `Error` carries a status code that HTTP can carry.
    pub open spec fn wf(&self) -> bool {
        is_status_code(self@.status_code)
    }

    /// An error with a description of its own in front of the chain of
    /// `cause`, and with the trace of `cause`.
    pub open spec fn wraps(
        &self,
        status_code: u16,
        description: Seq<char>,
        cause: Report,
        actions: ActionsView,
    ) -> bool {
        &&& self.wf()
        &&& self@.status_code == status_code
        &&& self@.chain.len() == cause.chain@.len() + 1
        &&& self@.chain[0]@ == description
        &&& self@.chain.subrange(1, self@.chain.len() as int) == cause.chain@
        &&& self@.spantrace == cause.spantrace@
        &&& self@.actions == actions
    }

    /// An error that is its own root cause: one description, no trace.
    pub open spec fn is_root(
        &self,
        status_code: u16,
        description: Seq<char>,
        actions: ActionsView,
    ) -> bool {
        &&& self.wf()
        &&& self@.status_code == status_code
        &&& self@.chain.len() == 1
        &&& self@.chain[0]@ == description
        &&& self@.spantrace.len() == 0
        &&& self@.actions == actions
    }

    /// The error of a failure kind: the kind's status, its description in
    /// front of `cause`, and its actions.
    pub open spec fn is_failure(&self, failure: Failure, authenticated: bool, cause: Report) -> bool {
        self.wraps(
            failure.spec_status_code(),
            failure.spec_message(),
            cause,
            failure.spec_actions(authenticated),
        )
    }

    /// An error with the given status, report and actions.
    pub fn new(status_code: u16, error: Report, actions: Actions) -> (e: Error)
        requires
            is_status_code(status_code),
        ensures
            e.wf(),
            e@.status_code == status_code,
            e@.chain == error.chain@,
            e@.spantrace == error.spantrace@,
            e@.actions == actions@,
    {
        Error { status_code, error, actions }
    }

    /// An error that is its own root cause.
    pub fn root(status_code: u16, description: &str, actions: Actions) -> (e: Error)
        requires
            is_status_code(status_code),
        ensures
            e.is_root(status_code, description@, actions@),
    {
        Error { status_code, error: Report::msg(description.to_owned()), actions }
    }

    /// An error with a description of its own in front of `cause`.
    pub fn wrapping(status_code: u16, description: &str, cause: Report, actions: Actions) -> (e:
        Error)
        requires
            is_status_code(status_code),
        ensures
            e.wraps(status_code, description@, cause, actions@),
    {
        let report = cause.wrap_err(description.to_owned());
        proof {
            assert(report.chain@.subrange(1, report.chain@.len() as int) =~= cause.chain@);
        }
        Error { status_code, error: report, actions }
    }

    /// The error of a failure kind. `cause` is the report of what went wrong
    /// underneath; the kind's own description is put in front of it.
    pub fn from_failure(failure: Failure, authenticated: bool, cause: Report) -> (e: Error)
        ensures
            e.is_failure(failure, authenticated, cause),
    {
        Error::wrapping(
            failure.status_code(),
            failure.message(),
            cause,
            failure.actions(authenticated),
        )
    }

    pub fn status_code(&self) -> (code: u16)
        ensures
            code == self@.status_code,
            is_status_code(code),
    {
        proof {
            use_type_invariant(self);
        }
        self.status_code
    }

    pub fn actions(&self) -> (actions: Actions)
        ensures
            actions@ == self@.actions,
    {
        self.actions
    }

    pub fn chain(&self) -> (chain: &Vec<String>)
        ensures
            chain@ == self@.chain,
    {
        &self.error.chain
    }

    pub fn spantrace(&self) -> (spantrace: &Vec<Frame>)
        ensures
            spantrace@ == self@.spantrace,
    {
        &self.error.spantrace
    }
}

/// The reason phrase that the `http` crate holds for a status code, if it
/// holds one.
pub uninterp spec fn canonical_reason(code: u16) -> Option<Seq<char>>;

/// Calls `StatusCode::canonical_reason` of the `http` crate on the status
/// made of `code` by `StatusCode::from_u16`.
///
/// Trusted: that the phrase depends on the code alone; `None` stands for a
/// code without a phrase.
#[verifier::external_body]
fn reason_phrase(code: u16) -> (reason: Option<&'static str>)
    requires
        is_status_code(code),
    ensures
        match reason {
            Some(phrase) => canonical_reason(code) == Some(phrase@),
            None => canonical_reason(code) is None,
        },
{
    StatusCode::from_u16(code).ok()?.canonical_reason()
}

/// The character of a decimal digit.
pub open spec fn spec_digit(d: u16) -> char {
    if d == 0 {
        '0'
    } else if d == 1 {
        '1'
    } else if d == 2 {
        '2'
    } else if d == 3 {
        '3'
    } else if d == 4 {
        '4'
    } else if d == 5 {
        '5'
    } else if d == 6 {
        '6'
    } else if d == 7 {
        '7'
    } else if d == 8 {
        '8'
    } else {
        '9'
    }
}

/// A status code in its three decimal digits.
pub open spec fn spec_status_digits(code: u16) -> Seq<char> {
    seq![spec_digit(code / 100), spec_digit(code / 10 % 10), spec_digit(code % 10)]
}

/// The human description of a status: its reason phrase, or its digits where
/// it has none.
pub open spec fn spec_status_text(reason: Option<Seq<char>>, code: u16) -> Seq<char> {
    match reason {
        Some(phrase) => phrase,
        None => spec_status_digits(code),
    }
}

fn digit_text(d: u16) -> (text: &'static str)
    requires
        d < 10,
    ensures
        text@ == seq![spec_digit(d)],
{
    proof {
        reveal_strlit("0");
        reveal_strlit("1");
        reveal_strlit("2");
        reveal_strlit("3");
        reveal_strlit("4");
        reveal_strlit("5");
        reveal_strlit("6");
        reveal_strlit("7");
        reveal_strlit("8");
        reveal_strlit("9");
    }
    let text = if d == 0 {
        "0"
    } else if d == 1 {
        "1"
    } else if d == 2 {
        "2"
    } else if d == 3 {
        "3"
    } else if d == 4 {
        "4"
    } else if d == 5 {
        "5"
    } else if d == 6 {
        "6"
    } else if d == 7 {
        "7"
    } else if d == 8 {
        "8"
    } else {
        "9"
    };
    assert(text@ =~= seq![spec_digit(d)]);
    text
}

/// A status code in its three decimal digits.
pub fn status_digits(code: u16) -> (digits: String)
    requires
        is_status_code(code),
    ensures
        digits@ == spec_status_digits(code),
{
    let mut digits: String = digit_text(code / 100).to_owned();
    digits.append(digit_text(code / 10 % 10));
    digits.append(digit_text(code % 10));
    proof {
        assert(digits@ =~= spec_status_digits(code));
    }
    digits
}

/// The human description of a status, given its reason phrase.
pub fn status_text_from(reason: Option<&str>, code: u16) -> (text: String)
    requires
        is_status_code(code),
    ensures
        text@ == spec_status_text(
            match reason {
                Some(phrase) => Some(phrase@),
                None => None,
            },
            code,
        ),
{
    match reason {
        Some(phrase) => phrase.to_owned(),
        None => status_digits(code),
    }
}

/// The human description of a status.
pub fn status_text(code: u16) -> (text: String)
    requires
        is_status_code(code),
    ensures
        text@ == spec_status_text(canonical_reason(code), code),
{
    status_text_from(reason_phrase(code), code)
}

/// The document that a client receives for a failure. Every field is always
/// there; only the sign-out button may be absent from the buttons.
#[derive(Clone, Debug, PartialEq, Eq)]
pub struct ErrorBody {
    pub title: String,
    /// The human description of the status.
    pub text: String,
    pub icon: String,
    /// The descriptions of the error and of its causes, outermost first.
    pub chain: Vec<String>,
    pub spantrace: Vec<Frame>,
    pub buttons: Actions,
    /// The failure rendered as a fragment of a page.
    pub content: String,
}

impl Error {
    /// The document for this error. `content` is the error as the page
    /// template renders it.
    pub fn into_body(self, content: String) -> (body: ErrorBody)
        ensures
            body.title@ == "Error"@,
            body.text@ == spec_status_text(
                canonical_reason(self@.status_code),
                self@.status_code,
            ),
            body.icon@ == "error"@,
            body.chain@ == self@.chain,
            body.spantrace@ == self@.spantrace,
            body.buttons@ == self@.actions,
            body.content@ == content@,
    {
        proof {
            use_type_invariant(&self);
        }
        let Error { status_code, error, actions } = self;
        let Report { chain, spantrace } = error;
        ErrorBody {
            title: "Error".to_owned(),
            text: status_text(status_code),
            icon: "error".to_owned(),
            chain,
            spantrace,
            buttons: actions,
            content,
        }
    }
}

/// Turns a panic of the service into an answer.
#[derive(Clone, Copy, Debug)]
pub struct PanicHandler;

impl PanicHandler {
    /// What is said of a panic whose payload is no text.
    pub open spec fn spec_unreadable() -> Seq<char> {
        "Service panicked but `CatchPanic` was unable to downcast the panic info"@
    }

    /// The error for a panic: status 500, the panic's message as the only
    /// description, and acknowledgement as the only action. `message` is the
    /// payload where it is text.
    pub fn response_for_panic(&mut self, message: Option<String>) -> (e: Error)
        ensures
            e.is_root(
                INTERNAL_SERVER_ERROR,
                match message {
                    Some(text) => text@,
                    None => Self::spec_unreadable(),
                },
                ActionsView::plain(),
            ),
    {
        match message {
            Some(text) => Error::root(INTERNAL_SERVER_ERROR, text.as_str(), Actions::default()),
            None => Error::root(
                INTERNAL_SERVER_ERROR,
                "Service panicked but `CatchPanic` was unable to downcast the panic info",
                Actions::default(),
            ),
        }
    }
}

/// Gives the failure of a fallible step its status and its actions.
pub trait WithStatusCode<T> {
    /// The failure with `status_code` and acknowledgement as the only action.
    fn with_status_code(self, status_code: u16) -> Result<T, Error>
        requires
            is_status_code(status_code),
    ;

    /// The failure with `status_code` and `actions`.
    fn with_status_code_and_actions(self, status_code: u16, actions: Actions) -> Result<T, Error>
        requires
            is_status_code(status_code),
    ;
}

impl<T> WithStatusCode<T> for Result<T, Report> {
    fn with_status_code(self, status_code: u16) -> (outcome: Result<T, Error>)
        ensures
            match self {
                Ok(value) => outcome is Ok && outcome->Ok_0 == value,
                Err(report) => outcome is Err && outcome->Err_0.wf() && outcome->Err_0@
                    == (ErrorView {
                    status_code,
                    chain: report.chain@,
                    spantrace: report.spantrace@,
                    actions: ActionsView::plain(),
                }),
            },
    {
        match self {
            Ok(value) => Ok(value),
            Err(report) => Err(Error::new(status_code, report, Actions::default())),
        }
    }

    fn with_status_code_and_actions(self, status_code: u16, actions: Actions) -> (outcome: Result<
        T,
        Error,
    >)
        ensures
            match self {
                Ok(value) => outcome is Ok && outcome->Ok_0 == value,
                Err(report) => outcome is Err && outcome->Err_0.wf() && outcome->Err_0@
                    == (ErrorView {
                    status_code,
                    chain: report.chain@,
                    spantrace: report.spantrace@,
                    actions: actions@,
                }),
            },
    {
        match self {
            Ok(value) => Ok(value),
            Err(report) => Err(Error::new(status_code, report, actions)),
        }
    }
}

} // verus!
