use vstd::prelude::*;

verus! {

/// Number of seconds a session token stays valid after it is issued.
pub const TOKEN_VALIDITY_SECS: i64 = 86400;

/// The payload of a session token: a snapshot of the user's identity and role
/// flags at login, with the issue and expiry times in Unix seconds.
#[derive(Debug, Clone, PartialEq, Eq)]
pub struct UserClaims {
    pub id: i32,
    pub nickname: String,
    pub email: String,
    pub is_admin: bool,
    pub is_moderator: bool,
    pub is_author: bool,
    pub iat: i64,
    pub exp: i64,
}

impl UserClaims {
    /// Claims are well formed when the expiry is the issue time plus the
    /// validity window.
    pub open spec fn wf(&self) -> bool {
        self.exp == self.iat + TOKEN_VALIDITY_SECS
    }

    /// Claims are accepted at `now` only while `now` is strictly before the
    /// expiry.
    pub open spec fn current_at(&self, now: int) -> bool {
        now < self.exp
    }
}

} // verus!
