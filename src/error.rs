use vstd::prelude::*;
use vstd::string::StringExecFns;

verus! {

/// Failure kinds surfaced by the service. Several underlying causes are
/// collapsed into one kind on purpose, so that callers cannot tell them apart.
#[derive(Debug, Clone, PartialEq, Eq)]
pub enum Error {
    InternalError(String),
    InvalidRequest(String),
    InvalidCredentials,
    InvalidToken,
    Unauthorized(String),
    NotFound(String),
}

/// Body of an error response: a short title and optional details.
#[derive(Debug, Clone)]
pub struct ErrorBody {
    pub error: String,
    pub details: Option<String>,
}

impl ErrorBody {
    pub fn new(error: String, details: Option<String>) -> (r: Self)
        ensures
            r.error == error,
            r.details == details,
    {
        ErrorBody { error, details }
    }
}

/// HTTP status that each error kind is answered with.
pub open spec fn status_of(e: Error) -> u16 {
    match e {
        Error::InternalError(_) => 500,
        Error::InvalidRequest(_) => 400,
        Error::InvalidCredentials => 401,
        Error::InvalidToken => 401,
        Error::Unauthorized(_) => 401,
        Error::NotFound(_) => 404,
    }
}

/// Title shown for each error kind.
pub open spec fn title_of(e: Error) -> Seq<char> {
    match e {
        Error::InternalError(_) => "Sunucu hatası"@,
        Error::InvalidRequest(_) => "Geçersiz istek"@,
        Error::InvalidCredentials => "Geçersiz kullanıcı adı veya parola"@,
        Error::InvalidToken => "Geçersiz token"@,
        Error::Unauthorized(_) => "Yetkisiz erişim"@,
        Error::NotFound(_) => "Bulunamadı"@,
    }
}

/// Details shown for each error kind; internal failures expose none.
pub open spec fn details_of(e: Error) -> Option<Seq<char>> {
    match e {
        Error::InternalError(_) => None,
        Error::InvalidRequest(m) => Some(m@),
        Error::InvalidCredentials => Some("Kullanıcı adı veya parola hatalı. Lütfen kontrol edin."@),
        Error::InvalidToken => Some("Token geçerli değil veya süresi dolmuş olabilir."@),
        Error::Unauthorized(m) => Some(m@),
        Error::NotFound(m) => Some(m@),
    }
}

pub open spec fn opt_view(o: Option<String>) -> Option<Seq<char>> {
    match o {
        Some(s) => Some(s@),
        None => None,
    }
}

impl Error {
    /// The status code and body that this error is answered with.
    pub fn into_error_response(self) -> (r: (u16, ErrorBody))
        ensures
            r.0 == status_of(self),
            r.1.error@ == title_of(self),
            opt_view(r.1.details) == details_of(self),
    {
        match self {
            Error::InternalError(_) => {
                (500, ErrorBody::new(String::from_str("Sunucu hatası"), None))
            },
            Error::InvalidRequest(m) => {
                (400, ErrorBody::new(String::from_str("Geçersiz istek"), Some(m)))
            },
            Error::InvalidCredentials => {
                (401, ErrorBody::new(
                    String::from_str("Geçersiz kullanıcı adı veya parola"),
                    Some(String::from_str("Kullanıcı adı veya parola hatalı. Lütfen kontrol edin.")),
                ))
            },
            Error::InvalidToken => {
                (401, ErrorBody::new(
                    String::from_str("Geçersiz token"),
                    Some(String::from_str("Token geçerli değil veya süresi dolmuş olabilir.")),
                ))
            },
            Error::Unauthorized(m) => {
                (401, ErrorBody::new(String::from_str("Yetkisiz erişim"), Some(m)))
            },
            Error::NotFound(m) => {
                (404, ErrorBody::new(String::from_str("Bulunamadı"), Some(m)))
            },
        }
    }
}

} // verus!
