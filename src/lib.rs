//! Identity and authorization core of a forum service: claims, credential
//! extraction, password rules, the revocation ledger, the session manager and
//! the authorization policy.

pub mod auth;
pub mod claims;
pub mod cookie;
pub mod dto;
pub mod error;
pub mod headers;
pub mod laws;
pub mod ledger;
pub mod password;
pub mod requests;
pub mod store;
pub mod text;
pub mod token;

pub use crate::error::Error;
