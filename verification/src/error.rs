//! The one error type of the library.

use vstd::prelude::*;
use vstd::std_specs::convert::FromSpecImpl;
use vstd::string::to_string_from_display_ensures;

verus! {

/// `reqwest::Error`, what the HTTP transport reports.
#[verifier::external_type_specification]
#[verifier::external_body]
pub struct ExTransportError(reqwest::Error);

/// Every way in which a call into the library can fail.
///
/// The last three kinds are for callers that look at the HTTP status of an
/// answer. The library itself never raises them: it reads the body it is
/// given, whatever status came with it.
#[derive(Debug)]
pub enum PeriscopeError {
    /// A setting is missing or unusable.
    Config(String),
    /// The transport failed before a body was received.
    Api(reqwest::Error),
    /// The body is no JSON document, or none of the expected shape.
    Json(serde_json::Error),
    /// An environment variable could not be read; the text says why.
    Env(String),
    /// A parameter supplied by the caller is invalid.
    InvalidInput(String),
    /// The API refused the request for coming too soon after others.
    RateLimited,
    /// The API refused the key.
    Unauthorized,
    /// The named resource does not exist.
    NotFound(String),
}

impl PeriscopeError {
    /// The fixed words that open the message of this kind of error.
    pub open spec fn heading(self) -> Seq<char> {
        match self {
            PeriscopeError::Config(_) => "Configuration error: "@,
            PeriscopeError::Api(_) => "API request failed: "@,
            PeriscopeError::Json(_) => "JSON parsing error: "@,
            PeriscopeError::Env(_) => "Environment variable error: "@,
            PeriscopeError::InvalidInput(_) => "Invalid input: "@,
            PeriscopeError::RateLimited => "Rate limit exceeded"@,
            PeriscopeError::Unauthorized => "Authentication failed"@,
            PeriscopeError::NotFound(_) => "Resource not found: "@,
        }
    }

    /// Whether `detail` is what follows the heading in the message.
    ///
    /// For the two kinds that wrap an outside error it is any text that the
    /// error's own `Display` may produce; for the kinds without a payload it
    /// is empty.
    pub open spec fn has_detail(self, detail: Seq<char>) -> bool {
        match self {
            PeriscopeError::Config(m) => detail == m@,
            PeriscopeError::Api(e) => exists|text: String|
                #[trigger] to_string_from_display_ensures(&e, text) && detail == text@,
            PeriscopeError::Json(e) => exists|text: String|
                #[trigger] to_string_from_display_ensures(&e, text) && detail == text@,
            PeriscopeError::Env(m) => detail == m@,
            PeriscopeError::InvalidInput(m) => detail == m@,
            PeriscopeError::RateLimited => detail == Seq::<char>::empty(),
            PeriscopeError::Unauthorized => detail == Seq::<char>::empty(),
            PeriscopeError::NotFound(m) => detail == m@,
        }
    }

    /// The message of the error: its heading, then its detail.
    pub fn message(&self) -> (r: String)
        ensures
            exists|detail: Seq<char>| #[trigger]
                self.has_detail(detail) && r@ == self.heading() + detail,
    {
        match self {
            PeriscopeError::Config(m) => {
                let r = String::from_str("Configuration error: ").concat(m.as_str());
                assert(self.has_detail(m@));
                r
            },
            PeriscopeError::Api(e) => {
                let text = e.to_string();
                let r = String::from_str("API request failed: ").concat(text.as_str());
                assert(self.has_detail(text@));
                r
            },
            PeriscopeError::Json(e) => {
                let text = e.to_string();
                let r = String::from_str("JSON parsing error: ").concat(text.as_str());
                assert(self.has_detail(text@));
                r
            },
            PeriscopeError::Env(m) => {
                let r = String::from_str("Environment variable error: ").concat(m.as_str());
                assert(self.has_detail(m@));
                r
            },
            PeriscopeError::InvalidInput(m) => {
                let r = String::from_str("Invalid input: ").concat(m.as_str());
                assert(self.has_detail(m@));
                r
            },
            PeriscopeError::RateLimited => {
                let r = String::from_str("Rate limit exceeded");
                assert(self.has_detail(Seq::empty()));
                assert(r@ =~= self.heading() + Seq::<char>::empty());
                r
            },
            PeriscopeError::Unauthorized => {
                let r = String::from_str("Authentication failed");
                assert(self.has_detail(Seq::empty()));
                assert(r@ =~= self.heading() + Seq::<char>::empty());
                r
            },
            PeriscopeError::NotFound(m) => {
                let r = String::from_str("Resource not found: ").concat(m.as_str());
                assert(self.has_detail(m@));
                r
            },
        }
    }
}

impl From<reqwest::Error> for PeriscopeError {
    fn from(e: reqwest::Error) -> (r: PeriscopeError) {
        PeriscopeError::Api(e)
    }
}

impl FromSpecImpl<reqwest::Error> for PeriscopeError {
    open spec fn obeys_from_spec() -> bool {
        true
    }

    open spec fn from_spec(e: reqwest::Error) -> PeriscopeError {
        PeriscopeError::Api(e)
    }
}

impl From<serde_json::Error> for PeriscopeError {
    fn from(e: serde_json::Error) -> (r: PeriscopeError) {
        PeriscopeError::Json(e)
    }
}

impl FromSpecImpl<serde_json::Error> for PeriscopeError {
    open spec fn obeys_from_spec() -> bool {
        true
    }

    open spec fn from_spec(e: serde_json::Error) -> PeriscopeError {
        PeriscopeError::Json(e)
    }
}

} // verus!
