//! Example values, as they appear in the documentation of the interface.

use vstd::prelude::*;

use crate::account::LoginTemplate;
use crate::error::{Actions, ActionsView, Error, INTERNAL_SERVER_ERROR};
use crate::identity::{Login, User};

verus! {

/// A type that has an example value.
pub trait Placeholder: Sized {
    /// The example value.
    fn placeholder() -> Self;
}

impl Placeholder for User {
    fn placeholder() -> (example: User)
        ensures
            example.id == 1,
            example.username@ == "johndoe"@,
    {
        User { id: 1, username: "johndoe".to_owned() }
    }
}

impl Placeholder for Login {
    fn placeholder() -> (example: Login)
        ensures
            example.username@ == "johndoe"@,
            example.password@ == "verySecurePassword1234"@,
    {
        Login { username: "johndoe".to_owned(), password: "verySecurePassword1234".to_owned() }
    }
}

impl Placeholder for LoginTemplate {
    fn placeholder() -> (example: LoginTemplate)
        ensures
            example.user is None,
            !example.editing,
    {
        LoginTemplate { user: None, editing: false }
    }
}

impl Placeholder for Error {
    fn placeholder() -> (example: Error)
        ensures
            example.is_root(INTERNAL_SERVER_ERROR, "Example error"@, ActionsView::plain()),
    {
        Error::root(INTERNAL_SERVER_ERROR, "Example error", Actions::default())
    }
}

} // verus!
