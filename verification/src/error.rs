//! Errors of the HTTP API and of the data-source adapters, with the texts and
//! status codes they are reported with.
use vstd::prelude::*;

verus! {

/// An error answered to an API client.
#[derive(Debug, Clone, PartialEq, Eq)]
pub enum ApiError {
    /// The VIN in the request path is malformed; holds the explanation.
    InvalidVin(String),
    NotFound,
    /// The cache failed; holds its message.
    Cache(String),
    /// Any other failure; holds its message.
    Internal(String),
}

/// An error of a single data source.
#[derive(Debug, Clone, PartialEq, Eq)]
pub enum SourceError {
    /// The HTTP exchange failed; holds the client's message.
    Http(String),
    /// The response could not be read; holds the reason.
    Parse(String),
    NotFound,
    RateLimited,
    NotSupported,
    /// The source cannot answer; holds the reason.
    Unavailable(String),
}

/// Builds `prefix` followed by `tail`.
pub fn joined(prefix: &str, tail: &str) -> (r: String)
    ensures
        r@ == prefix@ + tail@,
{
    let mut r = String::from_str(prefix);
    r.append(tail);
    r
}

impl ApiError {
    /// The text of the error (its `Display` form).
    pub open spec fn spec_message(&self) -> Seq<char> {
        match self {
            ApiError::InvalidVin(m) => "Invalid VIN: "@ + m@,
            ApiError::NotFound => "Not found"@,
            ApiError::Cache(m) => "Cache error: "@ + m@,
            ApiError::Internal(m) => "Internal error: "@ + m@,
        }
    }

    /// The HTTP status code the error is answered with.
    pub open spec fn spec_status_code(&self) -> u16 {
        match self {
            ApiError::InvalidVin(_) => 400,
            ApiError::NotFound => 404,
            ApiError::Cache(_) => 500,
            ApiError::Internal(_) => 500,
        }
    }

    /// The text sent to the client in the `error` field of the response body.
    pub open spec fn spec_response_text(&self) -> Seq<char> {
        match self {
            ApiError::InvalidVin(m) => m@,
            ApiError::NotFound => "Not found"@,
            ApiError::Cache(m) => m@,
            ApiError::Internal(m) => m@,
        }
    }

    /// The text of the error (its `Display` form).
    pub fn message(&self) -> (r: String)
        ensures
            r@ == self.spec_message(),
    {
        match self {
            ApiError::InvalidVin(m) => joined("Invalid VIN: ", m.as_str()),
            ApiError::NotFound => String::from_str("Not found"),
            ApiError::Cache(m) => joined("Cache error: ", m.as_str()),
            ApiError::Internal(m) => joined("Internal error: ", m.as_str()),
        }
    }

    /// The HTTP status code and the `error` text of the response for this error.
    pub fn response_parts(&self) -> (r: (u16, String))
        ensures
            r.0 == self.spec_status_code(),
            r.1@ == self.spec_response_text(),
    {
        match self {
            ApiError::InvalidVin(m) => (400, m.clone()),
            ApiError::NotFound => (404, String::from_str("Not found")),
            ApiError::Cache(m) => (500, m.clone()),
            ApiError::Internal(m) => (500, m.clone()),
        }
    }
}

impl SourceError {
    /// The text of the error (its `Display` form).
    pub open spec fn spec_message(&self) -> Seq<char> {
        match self {
            SourceError::Http(m) => "HTTP error: "@ + m@,
            SourceError::Parse(m) => "Parse error: "@ + m@,
            SourceError::NotFound => "Not found"@,
            SourceError::RateLimited => "Rate limited"@,
            SourceError::NotSupported => "Not supported"@,
            SourceError::Unavailable(m) => "Unavailable: "@ + m@,
        }
    }

    /// The text of the error (its `Display` form).
    pub fn message(&self) -> (r: String)
        ensures
            r@ == self.spec_message(),
    {
        match self {
            SourceError::Http(m) => joined("HTTP error: ", m.as_str()),
            SourceError::Parse(m) => joined("Parse error: ", m.as_str()),
            SourceError::NotFound => String::from_str("Not found"),
            SourceError::RateLimited => String::from_str("Rate limited"),
            SourceError::NotSupported => String::from_str("Not supported"),
            SourceError::Unavailable(m) => joined("Unavailable: ", m.as_str()),
        }
    }
}

} // verus!
