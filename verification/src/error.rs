//! What can go wrong with a request to Spotify.

use vstd::prelude::*;

use crate::text::{join2, same_text};

verus! {

/// Which registered application a request or grant belongs to.
#[derive(Clone, Copy, Debug, PartialEq, Eq, Structural)]
pub enum ApiSource {
    Shared,
    Personal,
}

/// A failed request.
#[derive(Debug, PartialEq, Eq)]
pub enum ApiError {
    NotSignedIn,
    Status { status: u16, message: String },
    RateLimited,
    QuotaExhausted,
    SignInExpired { api_source: ApiSource },
    Network(String),
    Decode(String),
}

pub type ApiResult<T> = Result<T, ApiError>;

impl Clone for ApiError {
    fn clone(&self) -> (r: Self)
        ensures
            r == *self,
    {
        match self {
            ApiError::NotSignedIn => ApiError::NotSignedIn,
            ApiError::Status { status, message } => ApiError::Status {
                status: *status,
                message: message.clone(),
            },
            ApiError::RateLimited => ApiError::RateLimited,
            ApiError::QuotaExhausted => ApiError::QuotaExhausted,
            ApiError::SignInExpired { api_source } => ApiError::SignInExpired {
                api_source: *api_source,
            },
            ApiError::Network(detail) => ApiError::Network(detail.clone()),
            ApiError::Decode(detail) => ApiError::Decode(detail.clone()),
        }
    }
}

impl ApiError {
    /// The HTTP status of an answer that was neither a success nor handled
    /// on the way.
    pub open spec fn status_code(self) -> Option<u16> {
        match self {
            ApiError::Status { status, .. } => Some(status),
            _ => None,
        }
    }

    /// The application whose sign-in this error says has expired.
    pub open spec fn expired_source(self) -> Option<ApiSource> {
        match self {
            ApiError::SignInExpired { api_source } => Some(api_source),
            _ => None,
        }
    }

    /// The sentence shown for the error.
    pub open spec fn text(self) -> Seq<char> {
        match self {
            ApiError::NotSignedIn => "not signed in"@,
            ApiError::Status { message, .. } => message@,
            ApiError::RateLimited => "Spotify is rate limiting requests; try again in a moment"@,
            ApiError::QuotaExhausted =>
                "Spotify's Development Mode quota is exhausted; try again after the quota resets"@,
            ApiError::SignInExpired { .. } =>
                "your Spotify sign-in expired; please sign in again"@,
            ApiError::Network(detail) => "network error: "@ + detail@,
            ApiError::Decode(detail) => "unexpected response from Spotify: "@ + detail@,
        }
    }

    pub fn status(&self) -> (r: Option<u16>)
        ensures
            r == self.status_code(),
    {
        match self {
            ApiError::Status { status, .. } => Some(*status),
            _ => None,
        }
    }

    /// The application that has to sign in again, when that is the trouble.
    pub fn expired(&self) -> (r: Option<ApiSource>)
        ensures
            r == self.expired_source(),
    {
        match self {
            ApiError::SignInExpired { api_source } => Some(*api_source),
            _ => None,
        }
    }

    /// The sentence shown for the error.
    pub fn message(&self) -> (r: String)
        ensures
            r@ == self.text(),
    {
        match self {
            ApiError::NotSignedIn => "not signed in".to_owned(),
            ApiError::Status { message, .. } => message.clone(),
            ApiError::RateLimited =>
                "Spotify is rate limiting requests; try again in a moment".to_owned(),
            ApiError::QuotaExhausted =>
                "Spotify's Development Mode quota is exhausted; try again after the quota resets".to_owned(),
            ApiError::SignInExpired { .. } =>
                "your Spotify sign-in expired; please sign in again".to_owned(),
            ApiError::Network(detail) => join2("network error: ", detail.as_str()),
            ApiError::Decode(detail) => join2(
                "unexpected response from Spotify: ",
                detail.as_str(),
            ),
        }
    }

    /// A failure of the HTTP client: of an answer's body, or of the line.
    pub fn from_transport(decoding: bool, detail: String) -> (r: Self)
        ensures
            r == if decoding {
                ApiError::Decode(detail)
            } else {
                ApiError::Network(detail)
            },
    {
        if decoding {
            ApiError::Decode(detail)
        } else {
            ApiError::Network(detail)
        }
    }
}

/// What stands at a place of a JSON document.
#[derive(Debug, PartialEq, Eq)]
pub enum JsonPart {
    /// Nothing, or the document is no JSON.
    Missing,
    Null,
    Text(String),
    /// A number, a truth value, a list, or an object.
    Other,
}

pub ghost enum PartModel {
    Missing,
    Null,
    Text(Seq<char>),
    Other,
}

impl JsonPart {
    pub open spec fn view(&self) -> PartModel {
        match *self {
            JsonPart::Missing => PartModel::Missing,
            JsonPart::Null => PartModel::Null,
            JsonPart::Text(text) => PartModel::Text(text@),
            JsonPart::Other => PartModel::Other,
        }
    }

    /// The text, when it is one.
    pub fn text(self) -> (r: Option<String>)
        ensures
            match r {
                Some(text) => self@ == PartModel::Text(text@),
                None => !(self@ is Text),
            },
    {
        match self {
            JsonPart::Text(text) => Some(text),
            _ => None,
        }
    }
}

/// What stands at a JSON pointer of a document.
pub uninterp spec fn json_part_at(document: Seq<char>, pointer: Seq<char>) -> PartModel;

/// Parses a document with `serde_json::from_str` into a `Value` and looks up a
/// pointer with `Value::pointer`. The claim is only that what is found there is
/// a function of the two texts, which `json_part_at` names.
#[verifier::external_body]
pub(crate) fn json_part(document: &str, pointer: &str) -> (part: JsonPart)
    ensures
        part@ == json_part_at(document@, pointer@),
{
    let Ok(value) = serde_json::from_str::<serde_json::Value>(document) else {
        return JsonPart::Missing;
    };
    match value.pointer(pointer) {
        None => JsonPart::Missing,
        Some(serde_json::Value::Null) => JsonPart::Null,
        Some(serde_json::Value::String(text)) => JsonPart::Text(text.clone()),
        Some(_) => JsonPart::Other,
    }
}

/// What the body of a failed request says.
#[derive(Debug, PartialEq, Eq)]
pub struct ErrorBody {
    pub message: String,
    pub reason: Option<String>,
}

pub ghost struct ErrorModel {
    pub message: Seq<char>,
    pub reason: Option<Seq<char>>,
}

impl ErrorBody {
    pub open spec fn view(&self) -> ErrorModel {
        ErrorModel {
            message: self.message@,
            reason: match self.reason {
                Some(text) => Some(text@),
                None => None,
            },
        }
    }
}

/// What a body says, by what stands for its message and its reason. A message
/// is a text, or missing and then empty; a reason is a text, or missing, or
/// null. A body with anything else there says nothing.
pub open spec fn error_body(message: PartModel, reason: PartModel) -> Option<ErrorModel> {
    let said = match message {
        PartModel::Missing => Some(Seq::empty()),
        PartModel::Text(text) => Some(text),
        _ => None,
    };
    match said {
        None => None,
        Some(said) => match reason {
            PartModel::Missing | PartModel::Null => Some(
                ErrorModel { message: said, reason: None },
            ),
            PartModel::Text(text) => Some(ErrorModel { message: said, reason: Some(text) }),
            PartModel::Other => None,
        },
    }
}

/// Reads what a body says off its parts.
pub fn read_error(message: JsonPart, reason: JsonPart) -> (r: Option<ErrorBody>)
    ensures
        match r {
            Some(body) => error_body(message@, reason@) == Some(body@),
            None => error_body(message@, reason@) is None,
        },
{
    let said = match message {
        JsonPart::Missing => {
            let empty = String::new();
            assert(empty@ =~= Seq::<char>::empty());
            empty
        },
        JsonPart::Text(text) => text,
        _ => {
            return None;
        },
    };
    match reason {
        JsonPart::Missing | JsonPart::Null => Some(ErrorBody { message: said, reason: None }),
        JsonPart::Text(text) => Some(ErrorBody { message: said, reason: Some(text) }),
        JsonPart::Other => None,
    }
}

/// What the body of a failed request says.
pub open spec fn error_in(body: Seq<char>) -> Option<ErrorModel> {
    error_body(json_part_at(body, "/error/message"@), json_part_at(body, "/error/reason"@))
}

fn error_of_body(body: &str) -> (r: Option<ErrorBody>)
    ensures
        match r {
            Some(said) => error_in(body@) == Some(said@),
            None => error_in(body@) is None,
        },
{
    read_error(json_part(body, "/error/message"), json_part(body, "/error/reason"))
}

/// The reason phrase that HTTP gives a status code.
pub uninterp spec fn canonical_reason_of(status: u16) -> Option<Seq<char>>;

/// Calls `reqwest::StatusCode::from_u16` and its `canonical_reason`. The claim
/// is only that the phrase is a function of the code, which
/// `canonical_reason_of` names.
#[verifier::external_body]
fn canonical_reason(status: u16) -> (reason: Option<String>)
    ensures
        reason matches Some(text) ==> canonical_reason_of(status) == Some(text@),
        reason is None ==> canonical_reason_of(status) is None,
{
    let code = reqwest::StatusCode::from_u16(status).ok()?;
    code.canonical_reason().map(str::to_owned)
}

/// Whether the reason that an error body gives is an exhausted quota.
pub open spec fn names_quota(reason: Option<Seq<char>>) -> bool {
    reason == Some("QUOTA_EXCEEDED"@)
}

/// Whether a reason is that of an exhausted quota.
pub fn is_quota_reason(reason: &Option<String>) -> (r: bool)
    ensures
        r == names_quota(
            match *reason {
                Some(text) => Some(text@),
                None => None,
            },
        ),
{
    match reason {
        Some(text) => same_text(text.as_str(), "QUOTA_EXCEEDED"),
        None => false,
    }
}

/// Whether an error body says that the quota is used up.
pub open spec fn quota_in(body: Seq<char>) -> bool {
    match error_in(body) {
        Some(said) => names_quota(said.reason),
        None => false,
    }
}

/// Whether an error body says that the application's quota is used up, which
/// no wait of seconds mends.
pub fn is_quota_exhausted(body: &str) -> (r: bool)
    ensures
        r == quota_in(body@),
{
    match error_of_body(body) {
        Some(said) => is_quota_reason(&said.reason),
        None => false,
    }
}

/// The message of an error body, when the body says anything.
pub open spec fn said_in(body: Seq<char>) -> Option<Seq<char>> {
    match error_in(body) {
        Some(said) => Some(said.message),
        None => None,
    }
}

/// The message for a failed status: what the body says, else the status'
/// reason phrase, else a plain sentence.
pub open spec fn failure_text(said: Option<Seq<char>>, phrase: Option<Seq<char>>) -> Seq<char> {
    match said {
        Some(text) if text.len() > 0 => text,
        _ => match phrase {
            Some(text) => text,
            None => "request failed"@,
        },
    }
}

/// Picks the message of a failed status.
pub fn choose_failure_text(said: Option<String>, phrase: Option<String>) -> (r: String)
    ensures
        r@ == failure_text(
            match said {
                Some(text) => Some(text@),
                None => None,
            },
            match phrase {
                Some(text) => Some(text@),
                None => None,
            },
        ),
{
    match said {
        Some(text) => {
            if !text.as_str().is_empty() {
                return text;
            }
        },
        None => {},
    }
    match phrase {
        Some(text) => text,
        None => "request failed".to_owned(),
    }
}

/// The error for an answer whose status is not a success.
pub fn failed_status(status: u16, body: &str) -> (error: ApiError)
    ensures
        error matches ApiError::Status { status: s, message } && s == status && message@
            == failure_text(said_in(body@), canonical_reason_of(status)),
{
    let said = match error_of_body(body) {
        Some(said) => Some(said.message),
        None => None,
    };
    let phrase = canonical_reason(status);
    ApiError::Status { status, message: choose_failure_text(said, phrase) }
}

} // verus!
