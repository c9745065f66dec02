use vstd::prelude::*;
use vstd::string::StringExecFns;

use crate::claims::{UserClaims, TOKEN_VALIDITY_SECS};
use crate::cookie::{same_text, Cookie, CookieView};
use crate::error::Error;
use crate::ledger::{active_in, blake3_hex, first_issued, RevocationLedger, SessionRecord};
use crate::password::{argon2_accepts, hash_password, verify_password};
use crate::requests::{LoginRequest, RegisterRequest};
use crate::store::{duplicate_message, first_with_id, live_named, taken, CredentialStore, UserRecord};
use crate::token::accepted;

pub use crate::headers::AuthHeader;

verus! {

/// The transport mode named by a configuration value: `"authorization"`
/// selects the `Authorization` header; anything else, `"cookie"` included,
/// selects the cookie.
pub open spec fn mode_of(setting: Seq<char>) -> AuthHeader {
    if setting == "authorization"@ {
        AuthHeader::Authorization
    } else {
        AuthHeader::Cookie
    }
}

impl AuthHeader {
    /// The transport mode for a configuration value.
    pub fn from_setting(setting: &str) -> (r: AuthHeader)
        ensures
            r == mode_of(setting@),
    {
        if same_text(setting, "authorization") {
            AuthHeader::Authorization
        } else {
            AuthHeader::Cookie
        }
    }
}

/// The role that an operation asks of the caller.
#[derive(Debug, Clone, Copy, PartialEq, Eq)]
pub enum Role {
    Admin,
    Moderator,
    User,
}

/// An authorization requirement checked against accepted claims.
#[derive(Debug, Clone, Copy, PartialEq, Eq)]
pub enum Capability {
    AnyAuthenticated,
    ModeratorOrAdmin,
    Admin,
    OwnerOrModeratorOrAdmin(i32),
}

/// Whether claims meet a requirement. Any clause that matches grants access;
/// elevated roles override ownership.
pub open spec fn grants(claims: Option<UserClaims>, cap: Capability) -> bool {
    match claims {
        None => false,
        Some(c) => match cap {
            Capability::AnyAuthenticated => true,
            Capability::ModeratorOrAdmin => c.is_moderator || c.is_admin,
            Capability::Admin => c.is_admin,
            Capability::OwnerOrModeratorOrAdmin(owner) => c.id == owner || c.is_moderator || c.is_admin,
        },
    }
}

/// Whether claims carry a role.
pub open spec fn has_role(c: UserClaims, role: Role) -> bool {
    match role {
        Role::Admin => c.is_admin,
        Role::Moderator => c.is_moderator,
        Role::User => true,
    }
}

/// The authorization policy: whether the accepted claims (none when the token
/// was missing, malformed or expired) meet `cap`.
pub fn permits(claims: &Option<UserClaims>, cap: Capability) -> (r: bool)
    ensures
        r == grants(*claims, cap),
{
    match claims {
        None => false,
        Some(c) => match cap {
            Capability::AnyAuthenticated => true,
            Capability::ModeratorOrAdmin => c.is_moderator || c.is_admin,
            Capability::Admin => c.is_admin,
            Capability::OwnerOrModeratorOrAdmin(owner) => c.id == owner || c.is_moderator || c.is_admin,
        },
    }
}

/// Whether decoded claims are still accepted at `now` and carry `role`.
pub fn authorize(decoded: &Option<UserClaims>, now: i64, role: Role) -> (r: bool)
    ensures
        r == (accepted(*decoded, now as int) is Some && has_role(decoded.unwrap(), role)),
{
    match decoded {
        None => false,
        Some(c) => {
            let valid = now < c.exp;
            match role {
                Role::Admin => c.is_admin && valid,
                Role::Moderator => c.is_moderator && valid,
                Role::User => valid,
            }
        },
    }
}

/// Whether decoded claims are still accepted at `now` and belong to a
/// moderator or an admin, as the moderation operations require.
pub fn authorize_crew(decoded: &Option<UserClaims>, now: i64) -> (r: bool)
    ensures
        r == (accepted(*decoded, now as int) is Some && (decoded.unwrap().is_moderator || decoded.unwrap().is_admin)),
{
    authorize(decoded, now, Role::Moderator) || authorize(decoded, now, Role::Admin)
}

/// What a successful login hands back: the cookie to set, the signed token,
/// and the user's role flags.
#[derive(Debug, Clone)]
pub struct LoginResponse {
    pub cookie: Cookie,
    pub token: String,
    pub is_admin: bool,
    pub is_moderator: bool,
}

/// The claims issued at `now` for a user: a snapshot of the role flags, with
/// the activity marker in `is_author`, valid for one day.
pub open spec fn claims_for(u: UserRecord, now: i64) -> UserClaims {
    UserClaims {
        id: u.id,
        nickname: u.nickname,
        email: u.email,
        is_admin: u.is_admin,
        is_moderator: u.is_moderator,
        is_author: u.is_faded,
        iat: now,
        exp: (now + TOKEN_VALIDITY_SECS) as i64,
    }
}

/// The cookie that carries a session token until the claims expire.
pub open spec fn session_cookie(token: Seq<char>, exp: i64) -> CookieView {
    CookieView {
        name: "token"@,
        value: token,
        domain: None,
        path: Some("/"@),
        expires: Some(exp),
        http_only: true,
        secure: true,
        same_site: Some("Strict"@),
    }
}

/// The cookie that clears the session token: empty, expired at the epoch.
pub open spec fn clearing_cookie() -> CookieView {
    CookieView {
        name: "token"@,
        value: Seq::empty(),
        domain: None,
        path: Some("/"@),
        expires: Some(0),
        http_only: true,
        secure: true,
        same_site: Some("Strict"@),
    }
}

/// Registers a user: checks the request, then that the nickname and e-mail
/// are free, hashes the password and adds the user. Fails with
/// `InvalidRequest` listing the broken rules, with `InvalidRequest` when the
/// nickname or e-mail is in use by a live user, and with `InternalError` when
/// hashing or storing fails.
pub fn register(store: &mut CredentialStore, request: RegisterRequest) -> (r: Result<i32, Error>)
    requires
        old(store).wf(),
    ensures
        final(store).wf(),
        r is Err ==> final(store)@ == old(store)@ && final(store).next_id() == old(store).next_id(),
        !request.valid() ==> r is Err && r->Err_0 is InvalidRequest
            && r->Err_0->InvalidRequest_0@ == request.violations(),
        request.valid() && taken(old(store)@, request.nickname@, request.email@) ==> r is Err
            && r->Err_0 is InvalidRequest && r->Err_0->InvalidRequest_0@ == duplicate_message(),
        request.valid() && !taken(old(store)@, request.nickname@, request.email@)
            && old(store).next_id() < i32::MAX ==> r is Ok || r->Err_0 is InternalError,
        request.valid() && !taken(old(store)@, request.nickname@, request.email@)
            && old(store).next_id() < i32::MAX && request.password@.len() <= 0x3FFF_FFFF ==> r is Ok,
        r is Ok ==> request.valid() && !taken(old(store)@, request.nickname@, request.email@)
            && r->Ok_0 == old(store).next_id()
            && final(store).next_id() == old(store).next_id() + 1
            && final(store)@.len() == old(store)@.len() + 1
            && final(store)@.drop_last() == old(store)@
            && final(store)@.last().id == r->Ok_0
            && final(store)@.last().nickname@ == request.nickname@
            && final(store)@.last().email@ == request.email@
            && argon2_accepts(request.password@, final(store)@.last().password_hash@)
            && final(store)@.last().live()
            && !final(store)@.last().is_admin
            && !final(store)@.last().is_moderator
            && final(store)@.last().is_faded,
{
    match request.validate() {
        Ok(()) => {},
        Err(e) => {
            return Err(e);
        },
    }
    if store.is_taken(request.nickname.as_str(), request.email.as_str()) {
        return Err(Error::InvalidRequest(String::from_str(
            "Bu e-posta adresi veya kullanıcı adı zaten kullanımda.",
        )));
    }
    let password_hash = match hash_password(request.password.as_str()) {
        Ok(h) => h,
        Err(e) => {
            return Err(e);
        },
    };
    let r = store.insert_user(request.nickname, request.email, password_hash);
    proof {
        if r is Ok {
            assert(final(store)@.drop_last() =~= old(store)@);
        }
    }
    r
}

/// Checks credentials and builds the claims to sign: the live user with the
/// nickname, if the password matches its hash. An unknown nickname and a wrong
/// password fail alike, with `InvalidCredentials`.
pub fn login(store: &CredentialStore, request: &LoginRequest, now: i64) -> (r: Result<UserClaims, Error>)
    requires
        store.wf(),
        now <= i64::MAX - TOKEN_VALIDITY_SECS,
    ensures
        !request.valid() ==> r is Err && r->Err_0 is InvalidRequest
            && r->Err_0->InvalidRequest_0@ == request.violations(),
        request.valid() ==> match live_named(store@, request.nickname@) {
            None => r is Err && r->Err_0 is InvalidCredentials,
            Some(i) => if argon2_accepts(request.password@, store@[i].password_hash@) {
                r is Ok && r->Ok_0 == claims_for(store@[i], now)
            } else {
                r is Err && r->Err_0 is InvalidCredentials
            },
        },
{
    match request.validate() {
        Ok(()) => {},
        Err(e) => {
            return Err(e);
        },
    }
    let user = match store.find_user_by_nickname(request.nickname.as_str()) {
        Some(u) => u,
        None => {
            return Err(Error::InvalidCredentials);
        },
    };
    if !verify_password(request.password.as_str(), user.password_hash.as_str()) {
        return Err(Error::InvalidCredentials);
    }
    Ok(UserClaims {
        id: user.id,
        nickname: user.nickname.clone(),
        email: user.email.clone(),
        is_admin: user.is_admin,
        is_moderator: user.is_moderator,
        is_author: user.is_faded,
        iat: now,
        exp: now + TOKEN_VALIDITY_SECS,
    })
}

/// Completes a login once the claims were signed: records the token's
/// fingerprint, then hands back the token with its cookie. `token` is the
/// signed token, or `None` when signing failed. No token is handed back
/// without a record that can revoke it; any failure is an `InternalError`.
/// A token that already has an active record keeps it, and the ledger is left
/// as it was.
pub fn open_session(ledger: &mut RevocationLedger, claims: &UserClaims, token: Option<String>, now: i64) -> (r: Result<LoginResponse, Error>)
    requires
        old(ledger).wf(),
    ensures
        final(ledger).wf(),
        r is Err ==> final(ledger)@ == old(ledger)@ && final(ledger).next_id() == old(ledger).next_id()
            && r->Err_0 is InternalError,
        token is None ==> r is Err,
        token is Some && (old(ledger).next_id() < i32::MAX
            || active_in(old(ledger)@, blake3_hex(token.unwrap()@))) ==> r is Ok,
        r is Ok ==> token is Some
            && r->Ok_0.token == token.unwrap()
            && r->Ok_0.cookie@ == session_cookie(token.unwrap()@, claims.exp)
            && r->Ok_0.is_admin == claims.is_admin
            && r->Ok_0.is_moderator == claims.is_moderator
            && active_in(final(ledger)@, blake3_hex(token.unwrap()@)),
        r is Ok && active_in(old(ledger)@, blake3_hex(token.unwrap()@)) ==> final(ledger)@ == old(ledger)@,
        r is Ok && !active_in(old(ledger)@, blake3_hex(token.unwrap()@)) ==>
            final(ledger)@.len() == old(ledger)@.len() + 1
            && final(ledger)@.drop_last() == old(ledger)@
            && final(ledger)@.last().id == old(ledger).next_id()
            && final(ledger)@.last().user_id == claims.id
            && final(ledger)@.last().hash@ == blake3_hex(token.unwrap()@)
            && final(ledger)@.last().created_at == now
            && final(ledger)@.last().invalidated_at is None,
{
    let token = match token {
        Some(t) => t,
        None => {
            return Err(Error::InternalError(String::from_str("Token oluşturulamadı.")));
        },
    };
    match ledger.record(claims.id, token.as_str(), now) {
        Ok(_) => {},
        Err(e) => {
            return Err(e);
        },
    }
    let cookie = Cookie::new("token", token.as_str()).path("/").http_only(true).secure(true).expires(
        Some(claims.exp),
    );
    Ok(LoginResponse { cookie, token, is_admin: claims.is_admin, is_moderator: claims.is_moderator })
}

/// Revokes a session: invalidates the token's record and hands back the cookie
/// that clears it. Fails with `Unauthorized` when no token was supplied and
/// with `InvalidToken` when the token has no active record.
pub fn logout(ledger: &mut RevocationLedger, token: Option<&str>, now: i64) -> (r: Result<Cookie, Error>)
    requires
        old(ledger).wf(),
    ensures
        final(ledger).wf(),
        r is Err ==> final(ledger)@ == old(ledger)@,
        token is None ==> r is Err && r->Err_0 is Unauthorized,
        token is Some ==> match r {
            Ok(c) => active_in(old(ledger)@, blake3_hex(token.unwrap()@))
                && c@ == clearing_cookie()
                && final(ledger)@ == old(ledger)@.map_values(
                    |s: SessionRecord| crate::ledger::revoked(s, blake3_hex(token.unwrap()@), now),
                ),
            Err(e) => !active_in(old(ledger)@, blake3_hex(token.unwrap()@)) && e is InvalidToken,
        },
{
    let token = match token {
        Some(t) => t,
        None => {
            return Err(Error::Unauthorized(String::from_str("Geçersiz token")));
        },
    };
    match ledger.invalidate(token, now) {
        Ok(()) => {
            proof {
                reveal_strlit("");
            }
            assert(""@ =~= Seq::<char>::empty());
            Ok(Cookie::new("token", "").path("/").expires(Some(0)))
        },
        Err(_) => Err(Error::InvalidToken),
    }
}

/// The user that the first record of a token names, when that user exists
/// and is live. Fails with `InvalidToken` when the token was never recorded or
/// its user is missing or deleted.
pub open spec fn token_user(users: Seq<UserRecord>, sessions: Seq<SessionRecord>, token: Seq<char>) -> Option<UserRecord> {
    match first_issued(sessions, blake3_hex(token)) {
        None => None,
        Some(i) => match first_with_id(users, sessions[i].user_id) {
            None => None,
            Some(j) => if users[j].live() { Some(users[j]) } else { None },
        },
    }
}

/// The live user that a token was issued to, found through the token's first
/// record, revoked or not. Fails with `InvalidToken` otherwise.
pub fn user_by_token<'a>(store: &'a CredentialStore, ledger: &RevocationLedger, token: &str) -> (r: Result<&'a UserRecord, Error>)
    ensures
        match token_user(store@, ledger@, token@) {
            Some(u) => r is Ok && *r->Ok_0 == u,
            None => r is Err && r->Err_0 is InvalidToken,
        },
{
    let user_id = match ledger.owner_of(token) {
        Some(id) => id,
        None => {
            return Err(Error::InvalidToken);
        },
    };
    match store.find_user_by_id(user_id) {
        Some(u) => {
            if u.deleted_at.is_none() {
                Ok(u)
            } else {
                Err(Error::InvalidToken)
            }
        },
        None => Err(Error::InvalidToken),
    }
}

} // verus!
