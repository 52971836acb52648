//! The request authentication and authorization pipeline of a small
//! multi-tenant messaging API: credential extraction, memory-hard password
//! verification, principal resolution, per-request session state, input
//! validation, ownership-based authorization, and the error taxonomy that
//! governs what a caller is told.
//!
//! Persistence, transport and routing are external collaborators: the store
//! is consulted through plain lookup results handed into
//! [`user::resolve_principal`], and the transport renders errors from
//! [`error::Error::status_code`] and [`error::Error::client_message`].

use vstd::prelude::*;

pub mod config;
pub mod credential;
pub mod decimal;
pub mod error;
pub mod headers;
pub mod message;
pub mod password;
pub mod space;
pub mod text;
pub mod user;
pub mod validate;

verus! {

} // verus!
