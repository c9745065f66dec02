use argon2::password_hash::{rand_core::OsRng, PasswordHasher, SaltString};
use argon2::PasswordVerifier;
use vstd::prelude::*;
use vstd::string::{StrSliceExecFns, StringExecFns};

use crate::error::Error;
use crate::headers::{is_white, white};

verus! {

/// Whether `c` has Unicode's `Lowercase` property.
pub uninterp spec fn lowercase_char(c: char) -> bool;

/// Whether `c` has Unicode's `Uppercase` property.
pub uninterp spec fn uppercase_char(c: char) -> bool;

/// Whether the argon2 hash string `hash` is well formed and was derived from
/// `password`.
pub uninterp spec fn argon2_accepts(password: Seq<char>, hash: Seq<char>) -> bool;

/// Relies on `char::is_lowercase`; the ASCII letters `a` to `z` are
/// lower-case.
#[verifier::external_body]
fn is_lower(c: char) -> (r: bool)
    ensures
        r == lowercase_char(c),
        'a' <= c <= 'z' ==> r,
{
    c.is_lowercase()
}

/// Relies on `char::is_uppercase`; the ASCII letters `A` to `Z` are
/// upper-case.
#[verifier::external_body]
fn is_upper(c: char) -> (r: bool)
    ensures
        r == uppercase_char(c),
        'A' <= c <= 'Z' ==> r,
{
    c.is_uppercase()
}

/// Relies on argon2's `Argon2::hash_password` with the default parameters and
/// a fresh random salt from the operating system (`SaltString::generate`). The
/// hash string records the algorithm, parameters and salt, so
/// `verify_password` re-derives the same digest from it: whatever the salt, the
/// result accepts the password. With the default parameters and a generated
/// salt, hashing fails only on a password over `0xFFFF_FFFF` bytes
/// (`Error::PwdTooLong`); a password of at most `0x3FFF_FFFF` characters has at
/// most four times as many bytes.
#[verifier::external_body]
fn argon2_hash(password: &str) -> (r: Option<String>)
    ensures
        r is Some ==> argon2_accepts(password@, r->Some_0@),
        password@.len() <= 0x3FFF_FFFF ==> r is Some,
{
    let salt = SaltString::generate(&mut OsRng);
    match argon2::Argon2::default().hash_password(password.as_bytes(), &salt) {
        Ok(h) => Some(h.to_string()),
        Err(_) => None,
    }
}

/// Relies on argon2's `PasswordHash::new` and `Argon2::verify_password`: true
/// when `hash` parses and matches `password`, false otherwise (a malformed hash
/// included).
#[verifier::external_body]
fn argon2_verify(password: &str, hash: &str) -> (r: bool)
    ensures
        r == argon2_accepts(password@, hash@),
{
    match argon2::PasswordHash::new(hash) {
        Ok(parsed) => argon2::Argon2::default().verify_password(password.as_bytes(), &parsed).is_ok(),
        Err(_) => false,
    }
}

/// A salted, memory-hard hash of `password`, encoded with its parameters and
/// salt. Every call draws a new salt. Fails, with `InternalError`, only on a
/// password too long for argon2.
pub fn hash_password(password: &str) -> (r: Result<String, Error>)
    ensures
        r is Ok ==> argon2_accepts(password@, r->Ok_0@),
        password@.len() <= 0x3FFF_FFFF ==> r is Ok,
        r is Err ==> r->Err_0 is InternalError,
{
    match argon2_hash(password) {
        Some(h) => Ok(h),
        None => Err(Error::InternalError(String::from_str("Parola özeti oluşturulamadı."))),
    }
}

/// Whether `password` matches the encoded hash `hash`; false on a malformed
/// hash.
pub fn verify_password(password: &str, hash: &str) -> (r: bool)
    ensures
        r == argon2_accepts(password@, hash@),
{
    argon2_verify(password, hash)
}

pub open spec fn is_ascii_digit(c: char) -> bool {
    '0' <= c && c <= '9'
}

/// The number of bytes that UTF-8 takes for `c`.
pub open spec fn utf8_width(c: char) -> nat {
    if (c as u32) < 0x80 {
        1
    } else if (c as u32) < 0x800 {
        2
    } else if (c as u32) < 0x10000 {
        3
    } else {
        4
    }
}

/// The number of bytes that UTF-8 takes for `p`.
pub open spec fn utf8_len(p: Seq<char>) -> nat
    decreases p.len(),
{
    if p.len() == 0 {
        0
    } else {
        utf8_len(p.drop_last()) + utf8_width(p.last())
    }
}

fn char_width(c: char) -> (r: usize)
    ensures
        r == utf8_width(c),
{
    let v = c as u32;
    if v < 0x80 {
        1
    } else if v < 0x800 {
        2
    } else if v < 0x10000 {
        3
    } else {
        4
    }
}

/// The complexity rule for passwords: no whitespace, at least one upper-case
/// letter, one lower-case letter and one ASCII digit, and at least 8 bytes in
/// UTF-8.
pub open spec fn password_strong(p: Seq<char>) -> bool {
    &&& forall|i: int| 0 <= i < p.len() ==> !is_white(#[trigger] p[i])
    &&& exists|i: int| 0 <= i < p.len() && uppercase_char(#[trigger] p[i])
    &&& exists|i: int| 0 <= i < p.len() && lowercase_char(#[trigger] p[i])
    &&& exists|i: int| 0 <= i < p.len() && is_ascii_digit(#[trigger] p[i])
    &&& utf8_len(p) >= 8
}

pub open spec fn password_message() -> Seq<char> {
    "Parola en az bir büyük harf, bir küçük harf, bir sayı ve en az 8 karakter içermelidir."@
}

/// Whether `password` meets the complexity rule.
pub fn is_strong_password(password: &str) -> (r: bool)
    ensures
        r == password_strong(password@),
{
    let n = password.unicode_len();
    let mut has_whitespace = false;
    let mut has_upper = false;
    let mut has_lower = false;
    let mut has_digit = false;
    let mut bytes: usize = 0;
    let mut i: usize = 0;
    while i < n
        invariant
            n == password@.len(),
            i <= n,
            has_whitespace == exists|j: int| 0 <= j < i && is_white(#[trigger] password@[j]),
            has_upper == exists|j: int| 0 <= j < i && uppercase_char(#[trigger] password@[j]),
            has_lower == exists|j: int| 0 <= j < i && lowercase_char(#[trigger] password@[j]),
            has_digit == exists|j: int| 0 <= j < i && is_ascii_digit(#[trigger] password@[j]),
            bytes <= 11,
            bytes < 8 ==> bytes == utf8_len(password@.take(i as int)),
            bytes >= 8 ==> utf8_len(password@.take(i as int)) >= 8,
        decreases n - i,
    {
        let c = password.get_char(i);
        assert(password@.take(i + 1).drop_last() =~= password@.take(i as int));
        if bytes < 8 {
            bytes = bytes + char_width(c);
        }
        has_whitespace = has_whitespace || white(c);
        has_upper = has_upper || is_upper(c);
        has_lower = has_lower || is_lower(c);
        has_digit = has_digit || ('0' <= c && c <= '9');
        i += 1;
    }
    assert(password@.take(n as int) =~= password@);
    !has_whitespace && has_upper && has_lower && has_digit && bytes >= 8
}

/// Checks the complexity rule; the error names the rule.
pub fn validate_password(password: &str) -> (r: Result<(), Error>)
    ensures
        r is Ok <==> password_strong(password@),
        r is Err ==> r->Err_0 is InvalidRequest && r->Err_0->InvalidRequest_0@ == password_message(),
{
    if is_strong_password(password) {
        Ok(())
    } else {
        Err(Error::InvalidRequest(String::from_str(
            "Parola en az bir büyük harf, bir küçük harf, bir sayı ve en az 8 karakter içermelidir.",
        )))
    }
}

} // verus!
