use vstd::prelude::*;

use crate::auth::{claims_for, grants, Capability};
use crate::claims::{UserClaims, TOKEN_VALIDITY_SECS};
use crate::ledger::{active_in, active_for, one_active_each, revoked, SessionRecord};
use crate::password::argon2_accepts;
use crate::store::{clash, live_named, CredentialStore, UserRecord};
use crate::token::accepted;

verus! {

/// Once a token is revoked it is no longer active. `logout` and `invalidate`
/// leave the ledger as `revoked` maps it, so a later `is_active` on the token
/// is false and a second `logout` with it fails with `InvalidToken`.
pub proof fn revocation_is_final(before: Seq<SessionRecord>, fp: Seq<char>, now: i64)
    requires
        one_active_each(before),
    ensures
        !active_in(before.map_values(|s: SessionRecord| revoked(s, fp, now)), fp),
{
    let after = before.map_values(|s: SessionRecord| revoked(s, fp, now));
    assert forall|i: int| 0 <= i < after.len() implies !#[trigger] active_for(after[i], fp) by {
        assert(after[i] == revoked(before[i], fp, now));
    }
}

/// Revoking one token leaves every other token's standing as it was.
pub proof fn revocation_is_targeted(before: Seq<SessionRecord>, fp: Seq<char>, other: Seq<char>, now: i64)
    requires
        fp != other,
    ensures
        active_in(before.map_values(|s: SessionRecord| revoked(s, fp, now)), other) == active_in(before, other),
{
    let after = before.map_values(|s: SessionRecord| revoked(s, fp, now));
    if active_in(before, other) {
        let i = choose|i: int| 0 <= i < before.len() && #[trigger] active_for(before[i], other);
        assert(active_for(after[i], other));
    }
    if active_in(after, other) {
        let i = choose|i: int| 0 <= i < after.len() && #[trigger] active_for(after[i], other);
        assert(active_for(before[i], other));
    }
}

/// Claims whose expiry is not after `now` are rejected, whatever their
/// signature: a token with `exp = now - 1` is refused.
pub proof fn expired_claims_rejected(c: UserClaims, now: int)
    requires
        c.exp <= now,
    ensures
        accepted(Some(c), now) is None,
{
}

/// Claims are accepted field for field, unchanged, while `now < exp`.
pub proof fn current_claims_kept(c: UserClaims, now: int)
    requires
        now < c.exp,
    ensures
        accepted(Some(c), now) == Some(c),
{
}

/// Without accepted claims no requirement is met.
pub proof fn anonymous_denied(cap: Capability)
    ensures
        !grants(None, cap),
{
}

/// Elevated roles override ownership: a moderator or an admin meets the owner
/// requirement of any resource.
pub proof fn elevated_roles_override(c: UserClaims, owner: i32)
    requires
        c.is_moderator || c.is_admin,
    ensures
        grants(Some(c), Capability::OwnerOrModeratorOrAdmin(owner)),
        grants(Some(c), Capability::ModeratorOrAdmin),
{
}

/// The owner of a resource meets its owner requirement; a user with no
/// elevated role meets no other user's.
pub proof fn ownership_decides_for_plain_users(c: UserClaims, owner: i32)
    requires
        !c.is_moderator,
        !c.is_admin,
    ensures
        grants(Some(c), Capability::OwnerOrModeratorOrAdmin(owner)) == (c.id == owner),
{
}

/// Claims issued at login expire exactly one validity window after issue.
pub proof fn issued_claims_wf(u: UserRecord, now: i64)
    requires
        now <= i64::MAX - TOKEN_VALIDITY_SECS,
    ensures
        claims_for(u, now).wf(),
        claims_for(u, now).current_at(now as int),
{
}

/// The user that `register` just added is the one `login` finds under its
/// nickname, and the password it registered with verifies against the stored
/// hash; `login` with that password then returns the user's claims.
pub proof fn registered_user_can_log_in(store: CredentialStore, password: Seq<char>)
    requires
        store.wf(),
        store@.len() > 0,
        store@.last().live(),
        argon2_accepts(password, store@.last().password_hash@),
    ensures
        live_named(store@, store@.last().nickname@) == Some(store@.len() - 1),
        argon2_accepts(password, store@[store@.len() - 1].password_hash@),
{
    let s = store@;
    let last = s.len() - 1;
    assert(s[last].live() && s[last].nickname@ == s.last().nickname@);
    let c = choose|i: int| 0 <= i < s.len() && s[i].live() && s[i].nickname@ == s.last().nickname@;
    if c != last {
        assert(clash(s[c], s[last]));
    }
}

/// A password other than the registered one logs in only if the stored hash
/// also accepts it: when argon2 rejects it, `login` fails with
/// `InvalidCredentials` for the registered nickname.
pub proof fn other_password_rejected(store: CredentialStore, other: Seq<char>)
    requires
        store.wf(),
        store@.len() > 0,
        store@.last().live(),
        !argon2_accepts(other, store@.last().password_hash@),
    ensures
        live_named(store@, store@.last().nickname@) == Some(store@.len() - 1),
        !argon2_accepts(other, store@[live_named(store@, store@.last().nickname@).unwrap()].password_hash@),
{
    let s = store@;
    let last = s.len() - 1;
    assert(s[last].live() && s[last].nickname@ == s.last().nickname@);
    let c = choose|i: int| 0 <= i < s.len() && s[i].live() && s[i].nickname@ == s.last().nickname@;
    if c != last {
        assert(clash(s[c], s[last]));
    }
}

} // verus!
