use vstd::prelude::*;
use vstd::string::{StrSliceExecFns, StringExecFns};
use validator::ValidateEmail;

use crate::error::Error;
use crate::password::{is_strong_password, password_message, password_strong};

verus! {

/// Whether validator's e-mail rule (HTML5 shape, RFC 5321 part lengths)
/// accepts `s`.
pub uninterp spec fn email_shape(s: Seq<char>) -> bool;

/// Relies on validator's `ValidateEmail::validate_email`, which rejects the
/// empty text and any text without `@` before it looks further.
#[verifier::external_body]
fn email_valid(s: &str) -> (r: bool)
    ensures
        r == email_shape(s@),
        s@.len() == 0 ==> !r,
        !s@.contains('@') ==> !r,
{
    s.validate_email()
}

/// Nicknames are 2 to 30 characters long.
pub open spec fn nickname_ok(n: Seq<char>) -> bool {
    2 <= n.len() <= 30
}

/// A password given at login is not empty. Its strength is not checked
/// again: a password that breaks the rule matches no stored hash, and fails
/// as wrong credentials.
pub open spec fn login_password_ok(p: Seq<char>) -> bool {
    p.len() >= 1
}

pub open spec fn nickname_message() -> Seq<char> {
    "Kullanıcı adı 2 ile 30 karakter arasında olmalıdır."@
}

pub open spec fn email_message() -> Seq<char> {
    "Geçerli bir e-posta adresi girilmelidir."@
}

pub open spec fn login_password_message() -> Seq<char> {
    "Parola boş olamaz."@
}

/// Head of every message that lists violated rules.
pub open spec fn invalid_head() -> Seq<char> {
    "Geçersiz istek."@
}

/// `" "` and the message of a rule that does not hold; nothing for one that
/// holds.
pub open spec fn rule_text(ok: bool, message: Seq<char>) -> Seq<char> {
    if ok { Seq::empty() } else { " "@ + message }
}

fn append_rule(s: &mut String, ok: bool, message: &str)
    ensures
        final(s)@ == old(s)@ + rule_text(ok, message@),
{
    if !ok {
        s.append(" ");
        s.append(message);
        assert(final(s)@ =~= old(s)@ + rule_text(ok, message@));
    } else {
        assert(s@ =~= old(s)@ + rule_text(ok, message@));
    }
}

/// Credentials given at login.
#[derive(Debug, Clone)]
pub struct LoginRequest {
    pub nickname: String,
    pub password: String,
}

/// Data given at registration.
#[derive(Debug, Clone)]
pub struct RegisterRequest {
    pub nickname: String,
    pub email: String,
    pub password: String,
}

impl LoginRequest {
    pub open spec fn valid(&self) -> bool {
        nickname_ok(self.nickname@) && login_password_ok(self.password@)
    }

    /// The message listing the rules that this request breaks.
    pub open spec fn violations(&self) -> Seq<char> {
        invalid_head() + rule_text(nickname_ok(self.nickname@), nickname_message())
            + rule_text(login_password_ok(self.password@), login_password_message())
    }

    /// Checks the shape of the request; the error lists each broken rule.
    pub fn validate(&self) -> (r: Result<(), Error>)
        ensures
            r is Ok <==> self.valid(),
            r is Err ==> r->Err_0 is InvalidRequest && r->Err_0->InvalidRequest_0@ == self.violations(),
    {
        let n = self.nickname.as_str().unicode_len();
        let p = self.password.as_str().unicode_len();
        let nick_ok = 2 <= n && n <= 30;
        let pass_ok = p >= 1;
        if nick_ok && pass_ok {
            return Ok(());
        }
        let mut m = String::from_str("Geçersiz istek.");
        append_rule(&mut m, nick_ok, "Kullanıcı adı 2 ile 30 karakter arasında olmalıdır.");
        append_rule(&mut m, pass_ok, "Parola boş olamaz.");
        Err(Error::InvalidRequest(m))
    }
}

impl RegisterRequest {
    pub open spec fn valid(&self) -> bool {
        nickname_ok(self.nickname@) && email_shape(self.email@) && password_strong(self.password@)
    }

    /// The message listing the rules that this request breaks.
    pub open spec fn violations(&self) -> Seq<char> {
        invalid_head() + rule_text(nickname_ok(self.nickname@), nickname_message())
            + rule_text(email_shape(self.email@), email_message())
            + rule_text(password_strong(self.password@), password_message())
    }

    /// Checks the shape of the request; the error lists each broken rule.
    pub fn validate(&self) -> (r: Result<(), Error>)
        ensures
            r is Ok <==> self.valid(),
            r is Err ==> r->Err_0 is InvalidRequest && r->Err_0->InvalidRequest_0@ == self.violations(),
    {
        let n = self.nickname.as_str().unicode_len();
        let nick_ok = 2 <= n && n <= 30;
        let mail_ok = email_valid(self.email.as_str());
        let pass_ok = is_strong_password(self.password.as_str());
        if nick_ok && mail_ok && pass_ok {
            return Ok(());
        }
        let mut m = String::from_str("Geçersiz istek.");
        append_rule(&mut m, nick_ok, "Kullanıcı adı 2 ile 30 karakter arasında olmalıdır.");
        append_rule(&mut m, mail_ok, "Geçerli bir e-posta adresi girilmelidir.");
        append_rule(
            &mut m,
            pass_ok,
            "Parola en az bir büyük harf, bir küçük harf, bir sayı ve en az 8 karakter içermelidir.",
        );
        Err(Error::InvalidRequest(m))
    }
}

} // verus!
