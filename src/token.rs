use vstd::prelude::*;

pub use crate::claims::UserClaims;
use crate::text::{bool_string, bool_text, int_string, int_text};

verus! {

/// One field of the claims, as named when it is read out of a token.
#[derive(Debug, Clone, Copy, PartialEq, Eq)]
pub enum TokenField {
    Id,
    Nickname,
    Email,
    IsAdmin,
    IsModerator,
    IsAuthor,
    Iat,
    Exp,
}

/// The result of decoding a token whose signature checked, once the expiry is
/// enforced: the claims while `now < exp`, nothing otherwise.
pub open spec fn accepted(decoded: Option<UserClaims>, now: int) -> Option<UserClaims> {
    match decoded {
        Some(c) => if c.current_at(now) { Some(c) } else { None },
        None => None,
    }
}

/// Text of one field of the claims, as the field's `to_string` writes it.
pub open spec fn field_text(c: UserClaims, field: TokenField) -> Seq<char> {
    match field {
        TokenField::Id => int_text(c.id as int),
        TokenField::Nickname => c.nickname@,
        TokenField::Email => c.email@,
        TokenField::IsAdmin => bool_text(c.is_admin),
        TokenField::IsModerator => bool_text(c.is_moderator),
        TokenField::IsAuthor => bool_text(c.is_author),
        TokenField::Iat => int_text(c.iat as int),
        TokenField::Exp => int_text(c.exp as int),
    }
}

/// Enforces the expiry on claims whose signature has been checked: a token is
/// accepted only while `now` is strictly before its `exp`.
pub fn accept_claims(decoded: Option<UserClaims>, now: i64) -> (r: Option<UserClaims>)
    ensures
        r == accepted(decoded, now as int),
{
    match decoded {
        Some(c) => {
            if now < c.exp {
                Some(c)
            } else {
                None
            }
        },
        None => None,
    }
}

/// Whether a token, once its signature has been checked, is still accepted at
/// `now`.
pub fn is_token_valid(decoded: &Option<UserClaims>, now: i64) -> (r: bool)
    ensures
        r == accepted(*decoded, now as int).is_some(),
{
    match decoded {
        Some(c) => now < c.exp,
        None => false,
    }
}

/// The text of one field of accepted claims; nothing when no claims were
/// accepted.
pub fn get_field_from_token(claims: &Option<UserClaims>, field: TokenField) -> (r: Option<
    String,
>)
    ensures
        claims.is_none() ==> r.is_none(),
        claims.is_some() ==> r.is_some() && r.unwrap()@ == field_text(claims.unwrap(), field),
{
    match claims {
        Some(c) => {
            let s = match field {
                TokenField::Id => int_string(c.id as i64),
                TokenField::Nickname => c.nickname.clone(),
                TokenField::Email => c.email.clone(),
                TokenField::IsAdmin => bool_string(c.is_admin),
                TokenField::IsModerator => bool_string(c.is_moderator),
                TokenField::IsAuthor => bool_string(c.is_author),
                TokenField::Iat => int_string(c.iat),
                TokenField::Exp => int_string(c.exp),
            };
            Some(s)
        },
        None => None,
    }
}

/// The user id of accepted claims.
pub fn get_id(claims: &Option<UserClaims>) -> (r: Option<i32>)
    ensures
        r == (match *claims {
            Some(c) => Some(c.id),
            None => None::<i32>,
        }),
{
    match claims {
        Some(c) => Some(c.id),
        None => None,
    }
}

/// Whether accepted claims carry the admin flag; false without claims.
pub fn is_admin(claims: &Option<UserClaims>) -> (r: bool)
    ensures
        r == (claims.is_some() && claims.unwrap().is_admin),
{
    match claims {
        Some(c) => c.is_admin,
        None => false,
    }
}

/// Whether accepted claims carry the moderator flag; false without claims.
pub fn is_moderator(claims: &Option<UserClaims>) -> (r: bool)
    ensures
        r == (claims.is_some() && claims.unwrap().is_moderator),
{
    match claims {
        Some(c) => c.is_moderator,
        None => false,
    }
}

/// Whether accepted claims carry the author flag; false without claims.
pub fn is_author(claims: &Option<UserClaims>) -> (r: bool)
    ensures
        r == (claims.is_some() && claims.unwrap().is_author),
{
    match claims {
        Some(c) => c.is_author,
        None => false,
    }
}

} // verus!
