//! Request-scoped identity resolution for a small resource-exchange backend.
//!
//! On every request the surrounding server has to answer one question before
//! any handler runs: who is calling, and is the database session stamped with
//! that caller? This crate holds the decisions behind that answer. Each is
//! stated as a contract and proved with Verus:
//!
//! * [`digest`] derives the stored password digest from a username and a secret.
//! * [`credentials`] reads the caller's claim from the authorization header and
//!   the session cookie, in a fixed order of precedence.
//! * [`identity`] holds a claim against the stored identity.
//! * [`binder`] drives one request from its first byte to a stamped connection.
//! * [`error`] describes failures: their status, their suggested actions and the
//!   document that a client receives.
//! * [`negotiate`] reads the headers by which a client states its preferences.
//! * [`account`] ends a signup, a login, a change of login and a logout.
//! * [`games`] holds the catalog's records and what the caller has to do with them.
//! * [`placeholder`] gives the example values of the documented interface.
//! * [`octets`] holds the byte-string predicates the other modules share.

pub mod octets;
pub mod digest;
pub mod error;
pub mod credentials;
pub mod identity;
pub mod binder;
pub mod negotiate;
pub mod account;
pub mod placeholder;
pub mod games;
