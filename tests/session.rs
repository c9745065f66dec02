use service::auth::{
    authorize, authorize_crew, login, logout, open_session, permits, register, user_by_token,
    Capability, Role,
};
use service::claims::UserClaims;
use service::dto::{CreateEntryRequest, GetUserBinQuery, PaginationQuery, UpdateEntryRequest};
use service::error::ErrorBody;
use service::ledger::{fingerprint, RevocationLedger};
use service::password::{hash_password, is_strong_password, validate_password, verify_password};
use service::requests::{LoginRequest, RegisterRequest};
use service::store::CredentialStore;
use service::Error;

const NOW: i64 = 1_700_000_000;

fn register_request(nickname: &str, email: &str, password: &str) -> RegisterRequest {
    RegisterRequest {
        nickname: nickname.to_string(),
        email: email.to_string(),
        password: password.to_string(),
    }
}

fn login_request(nickname: &str, password: &str) -> LoginRequest {
    LoginRequest { nickname: nickname.to_string(), password: password.to_string() }
}

fn user_claims(id: i32, is_admin: bool, is_moderator: bool) -> UserClaims {
    UserClaims {
        id,
        nickname: "u".to_string(),
        email: "u@x.com".to_string(),
        is_admin,
        is_moderator,
        is_author: false,
        iat: NOW,
        exp: NOW + 86_400,
    }
}

#[test]
fn register_then_duplicate_fails() {
    let mut store = CredentialStore::new();
    let id = register(&mut store, register_request("alice", "alice@x.com", "Passw0rd"));
    assert_eq!(id, Ok(1));
    let again = register(&mut store, register_request("alice", "other@x.com", "Passw0rd"));
    assert_eq!(
        again,
        Err(Error::InvalidRequest(
            "Bu e-posta adresi veya kullanıcı adı zaten kullanımda.".to_string()
        ))
    );
    let same_mail = register(&mut store, register_request("bob", "alice@x.com", "Passw0rd"));
    assert!(matches!(same_mail, Err(Error::InvalidRequest(_))));
    assert_eq!(register(&mut store, register_request("bob", "bob@x.com", "Passw0rd")), Ok(2));
}

#[test]
fn register_lists_broken_rules() {
    let mut store = CredentialStore::new();
    let r = register(&mut store, register_request("a", "not-an-email", "password"));
    assert_eq!(
        r,
        Err(Error::InvalidRequest(
            "Geçersiz istek. Kullanıcı adı 2 ile 30 karakter arasında olmalıdır. Geçerli bir e-posta adresi girilmelidir. Parola en az bir büyük harf, bir küçük harf, bir sayı ve en az 8 karakter içermelidir.".to_string()
        ))
    );
    let r = register(&mut store, register_request("alice", "alice@x.com", "Pass 0rd1"));
    assert_eq!(
        r,
        Err(Error::InvalidRequest(
            "Geçersiz istek. Parola en az bir büyük harf, bir küçük harf, bir sayı ve en az 8 karakter içermelidir.".to_string()
        ))
    );
    assert!(store.find_user_by_nickname("alice").is_none());
}

#[test]
fn deleted_user_frees_nickname_and_cannot_log_in() {
    let mut store = CredentialStore::new();
    assert_eq!(register(&mut store, register_request("alice", "alice@x.com", "Passw0rd")), Ok(1));
    assert!(store.soft_delete(1, NOW));
    assert!(!store.soft_delete(1, NOW));
    assert_eq!(login(&store, &login_request("alice", "Passw0rd"), NOW), Err(Error::InvalidCredentials));
    assert_eq!(register(&mut store, register_request("alice", "alice@x.com", "Passw0rd")), Ok(2));
    assert_eq!(store.find_user_by_id(1).map(|u| u.deleted_at), Some(Some(NOW)));
}

#[test]
fn login_scenarios() {
    let mut store = CredentialStore::new();
    register(&mut store, register_request("alice", "alice@x.com", "Passw0rd")).unwrap();

    let claims = login(&store, &login_request("alice", "Passw0rd"), NOW).unwrap();
    assert_eq!(claims.id, 1);
    assert_eq!(claims.nickname, "alice");
    assert_eq!(claims.email, "alice@x.com");
    assert!(!claims.is_admin);
    assert!(!claims.is_moderator);
    assert!(claims.is_author);
    assert_eq!(claims.iat, NOW);
    assert_eq!(claims.exp, NOW + 86_400);

    assert_eq!(login(&store, &login_request("alice", "wrong"), NOW), Err(Error::InvalidCredentials));
    assert_eq!(login(&store, &login_request("nobody", "x"), NOW), Err(Error::InvalidCredentials));
    assert!(matches!(login(&store, &login_request("a", "x"), NOW), Err(Error::InvalidRequest(_))));
    assert!(matches!(login(&store, &login_request("alice", ""), NOW), Err(Error::InvalidRequest(_))));
}

#[test]
fn login_then_logout_revokes() {
    let mut store = CredentialStore::new();
    let mut ledger = RevocationLedger::new();
    register(&mut store, register_request("alice", "alice@x.com", "Passw0rd")).unwrap();
    let claims = login(&store, &login_request("alice", "Passw0rd"), NOW).unwrap();
    let token = "header.payload.signature".to_string();

    let response = open_session(&mut ledger, &claims, Some(token.clone()), NOW).unwrap();
    assert_eq!(response.token, token);
    assert!(!response.is_admin);
    assert!(!response.is_moderator);
    assert_eq!(
        response.cookie.to_header_value(),
        "token=header.payload.signature; Path=/; Expires=Wed, 15 Nov 2023 22:13:20 +0000; HttpOnly; Secure; SameSite=Strict; "
    );
    assert!(ledger.is_active(&token));
    assert!(!ledger.is_active("another.token.value"));

    let cleared = logout(&mut ledger, Some(&token), NOW + 10).unwrap();
    assert_eq!(
        cleared.to_header_value(),
        "token=; Path=/; Expires=Thu, 1 Jan 1970 00:00:00 +0000; HttpOnly; Secure; SameSite=Strict; "
    );
    assert!(!ledger.is_active(&token));
    assert_eq!(logout(&mut ledger, Some(&token), NOW + 20), Err(Error::InvalidToken));
    assert_eq!(logout(&mut ledger, Some("never.issued.here"), NOW), Err(Error::InvalidToken));
    assert_eq!(logout(&mut ledger, None, NOW), Err(Error::Unauthorized("Geçersiz token".to_string())));
}

#[test]
fn sessions_are_independent() {
    let mut ledger = RevocationLedger::new();
    let c = user_claims(3, false, false);
    open_session(&mut ledger, &c, Some("t1".to_string()), NOW).unwrap();
    open_session(&mut ledger, &c, Some("t2".to_string()), NOW).unwrap();
    assert!(logout(&mut ledger, Some("t1"), NOW).is_ok());
    assert!(!ledger.is_active("t1"));
    assert!(ledger.is_active("t2"));
}

#[test]
fn ledger_record_and_invalidate() {
    let mut ledger = RevocationLedger::new();
    assert_eq!(ledger.record(7, "tok", NOW), Ok(1));
    assert_eq!(ledger.record(7, "tok", NOW), Ok(1));
    assert_eq!(ledger.record(7, "tok2", NOW), Ok(2));
    assert_eq!(ledger.invalidate("tok", NOW), Ok(()));
    assert_eq!(ledger.invalidate("tok", NOW), Err(Error::InvalidToken));
    assert_eq!(ledger.record(7, "tok", NOW), Ok(3));
    assert!(ledger.is_active("tok"));
}

#[test]
fn unsigned_login_fails_internally() {
    let mut ledger = RevocationLedger::new();
    let c = user_claims(3, false, false);
    let r = open_session(&mut ledger, &c, None, NOW);
    assert_eq!(r.map(|x| x.token), Err(Error::InternalError("Token oluşturulamadı.".to_string())));
}

#[test]
fn fingerprint_is_blake3_hex() {
    assert_eq!(
        fingerprint(""),
        "af1349b9f5f9a1a6a0404dea36dcc9499bcb25c9adc112b7cc9a93cae41f3262"
    );
    assert_eq!(fingerprint("abc").len(), 64);
    assert_ne!(fingerprint("abc"), "abc");
}

#[test]
fn password_hash_salted_and_verified() {
    let h1 = hash_password("Passw0rd").unwrap();
    let h2 = hash_password("Passw0rd").unwrap();
    assert_ne!(h1, h2);
    assert_ne!(h1, "Passw0rd");
    assert!(verify_password("Passw0rd", &h1));
    assert!(verify_password("Passw0rd", &h2));
    assert!(!verify_password("Passw0rd!", &h1));
    assert!(!verify_password("passw0rd", &h1));
    assert!(!verify_password("Passw0rd", "not a hash"));
}

#[test]
fn password_rule() {
    assert!(is_strong_password("Passw0rd"));
    assert!(!is_strong_password("Passw0r"));
    assert!(!is_strong_password("password1"));
    assert!(!is_strong_password("PASSWORD1"));
    assert!(!is_strong_password("Password"));
    assert!(!is_strong_password("Pass w0rd"));
    assert!(is_strong_password("Şifre123x"));
    assert_eq!(validate_password("Passw0rd"), Ok(()));
    assert!(matches!(validate_password("weak"), Err(Error::InvalidRequest(_))));
}

#[test]
fn authorization_matrix() {
    let plain = Some(user_claims(5, false, false));
    assert!(permits(&plain, Capability::OwnerOrModeratorOrAdmin(5)));
    assert!(!permits(&plain, Capability::OwnerOrModeratorOrAdmin(9)));
    let moderator = Some(user_claims(5, false, true));
    assert!(permits(&moderator, Capability::OwnerOrModeratorOrAdmin(9)));
    let admin = Some(user_claims(5, true, false));
    assert!(permits(&admin, Capability::OwnerOrModeratorOrAdmin(9)));

    assert!(permits(&plain, Capability::AnyAuthenticated));
    assert!(!permits(&plain, Capability::ModeratorOrAdmin));
    assert!(permits(&moderator, Capability::ModeratorOrAdmin));
    assert!(!permits(&moderator, Capability::Admin));
    assert!(permits(&admin, Capability::Admin));
    for cap in [
        Capability::AnyAuthenticated,
        Capability::ModeratorOrAdmin,
        Capability::Admin,
        Capability::OwnerOrModeratorOrAdmin(5),
    ] {
        assert!(!permits(&None, cap));
    }
}

#[test]
fn role_authorization_checks_expiry() {
    let admin = Some(user_claims(1, true, false));
    assert!(authorize(&admin, NOW, Role::Admin));
    assert!(authorize(&admin, NOW, Role::User));
    assert!(!authorize(&admin, NOW, Role::Moderator));
    assert!(!authorize(&admin, NOW + 86_400, Role::Admin));
    assert!(authorize_crew(&admin, NOW));
    let plain = Some(user_claims(2, false, false));
    assert!(!authorize_crew(&plain, NOW));
    assert!(!authorize(&None, NOW, Role::User));
}

#[test]
fn error_responses() {
    let (status, body) = Error::InternalError("db down".to_string()).into_error_response();
    assert_eq!(status, 500);
    assert_eq!(body.error, "Sunucu hatası");
    assert_eq!(body.details, None);
    let (status, body) = Error::InvalidRequest("x".to_string()).into_error_response();
    assert_eq!((status, body.error.as_str(), body.details), (400, "Geçersiz istek", Some("x".to_string())));
    let (status, body) = Error::InvalidCredentials.into_error_response();
    assert_eq!(status, 401);
    assert_eq!(body.error, "Geçersiz kullanıcı adı veya parola");
    let (status, body) = Error::InvalidToken.into_error_response();
    assert_eq!(status, 401);
    assert_eq!(body.error, "Geçersiz token");
    let (status, body) = Error::Unauthorized("y".to_string()).into_error_response();
    assert_eq!((status, body.error.as_str()), (401, "Yetkisiz erişim"));
    let (status, body) = Error::NotFound("z".to_string()).into_error_response();
    assert_eq!((status, body.error.as_str(), body.details), (404, "Bulunamadı", Some("z".to_string())));
    let b = ErrorBody::new("e".to_string(), None);
    assert_eq!(b.error, "e");
}

#[test]
fn request_shapes() {
    assert!(PaginationQuery { page: 0, per_page: 1 }.validate());
    assert!(!PaginationQuery { page: 0, per_page: 0 }.validate());
    assert!(!PaginationQuery { page: 0, per_page: 101 }.validate());
    assert!(GetUserBinQuery { page: 1, per_page: 100 }.validate());
    assert!(!GetUserBinQuery { page: 0, per_page: 10 }.validate());
    assert!(CreateEntryRequest { title: "t".to_string(), content: "c".to_string() }.validate());
    assert!(!CreateEntryRequest { title: "t".repeat(76), content: "c".to_string() }.validate());
    assert!(!CreateEntryRequest { title: "t".to_string(), content: String::new() }.validate());
    assert!(UpdateEntryRequest { content: "c".to_string() }.validate());
    assert!(!UpdateEntryRequest { content: String::new() }.validate());
}

#[test]
fn user_by_token_follows_the_record() {
    let mut store = CredentialStore::new();
    let mut ledger = RevocationLedger::new();
    register(&mut store, register_request("alice", "alice@x.com", "Passw0rd")).unwrap();
    let claims = login(&store, &login_request("alice", "Passw0rd"), NOW).unwrap();
    open_session(&mut ledger, &claims, Some("tok".to_string()), NOW).unwrap();
    assert_eq!(user_by_token(&store, &ledger, "tok").map(|u| u.nickname.clone()), Ok("alice".to_string()));
    logout(&mut ledger, Some("tok"), NOW).unwrap();
    assert_eq!(user_by_token(&store, &ledger, "tok").map(|u| u.id), Ok(1));
    assert_eq!(user_by_token(&store, &ledger, "other").map(|u| u.id), Err(Error::InvalidToken));
    store.soft_delete(1, NOW);
    assert_eq!(user_by_token(&store, &ledger, "tok").map(|u| u.id), Err(Error::InvalidToken));
}

#[test]
fn password_length_counts_utf8_bytes() {
    assert!(is_strong_password("Ab1çççç"));
    assert_eq!("Ab1çççç".chars().count(), 7);
    assert!(!is_strong_password("Ab1çç"));
    assert!(is_strong_password("Ab1ççc"));
    assert!(is_strong_password("Ab1\u{1F600}x"));
    assert!(!is_strong_password("Ab1\u{1F600}"));
}

#[test]
fn fresh_store_registers_and_logs_in() {
    let mut store = CredentialStore::new();
    assert_eq!(register(&mut store, register_request("alice", "alice@x.com", "Ab1çççç")), Ok(1));
    let stored = store.find_user_by_id(1).unwrap().password_hash.clone();
    assert_ne!(stored, "Ab1çççç");
    assert!(verify_password("Ab1çççç", &stored));
    assert!(login(&store, &login_request("alice", "Ab1çççç"), NOW).is_ok());
}
