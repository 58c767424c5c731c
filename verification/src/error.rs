//! The failures a request can end in, and what a client is told of each.

use vstd::prelude::*;
use vstd::string::StringExecFns;
use crate::status::{BAD_REQUEST, INTERNAL_SERVER_ERROR, UNAUTHORIZED};

verus! {

/// Why a request failed.
#[derive(Clone, Debug, PartialEq, Eq)]
pub enum WebError {
    /// Credentials were required and those presented did not match.
    AuthenticationFailed,
    /// The uploaded file had no content.
    EmptyUpload,
    /// The file system refused an operation; the text describes it.
    IoError(String),
    /// A blocking task could not be completed; the text describes it.
    ThreadPoolError(String),
    /// The configured server URL, or a link built on it, is not a URL.
    InvalidUrl,
    /// The request lacks a required part or holds a malformed one.
    BadRequest,
    /// An image could not be written.
    InvalidImage,
}

/// What a client receives when a request fails.
#[derive(Clone, Debug, PartialEq, Eq)]
pub struct ErrorResponse {
    /// HTTP status code.
    pub status: u16,
    /// Value of the `WWW-Authenticate` header, where one is sent.
    pub challenge: Option<String>,
    /// Body of the response, as plain text.
    pub body: String,
}

impl WebError {
    /// HTTP status code that reports this error.
    pub open spec fn spec_status(&self) -> u16 {
        match self {
            WebError::AuthenticationFailed => UNAUTHORIZED,
            WebError::EmptyUpload => BAD_REQUEST,
            WebError::IoError(_) => INTERNAL_SERVER_ERROR,
            WebError::ThreadPoolError(_) => INTERNAL_SERVER_ERROR,
            WebError::InvalidUrl => INTERNAL_SERVER_ERROR,
            WebError::BadRequest => BAD_REQUEST,
            WebError::InvalidImage => BAD_REQUEST,
        }
    }

    /// The error in words, for a log or an operator.
    pub open spec fn spec_message(&self) -> Seq<char> {
        match self {
            WebError::AuthenticationFailed => "authentication failed"@,
            WebError::EmptyUpload => "tried to upload empty file"@,
            WebError::IoError(detail) => "i/o error: "@ + detail@,
            WebError::ThreadPoolError(detail) => "thread pool error: "@ + detail@,
            WebError::InvalidUrl => "invalid url"@,
            WebError::BadRequest => "bad request"@,
            WebError::InvalidImage => "image error"@,
        }
    }

    /// Body of the response that reports this error. It never carries the
    /// detail of an internal failure.
    pub open spec fn spec_body(&self) -> Seq<char> {
        match self {
            WebError::AuthenticationFailed => "unauthorized"@,
            WebError::EmptyUpload => self.spec_message(),
            WebError::IoError(_) => "i/o error"@,
            WebError::ThreadPoolError(_) => "internal error"@,
            WebError::InvalidUrl => "invalid url"@,
            WebError::BadRequest => "bad request"@,
            WebError::InvalidImage => "invalid image"@,
        }
    }

    /// HTTP status code that reports this error.
    pub fn status_code(&self) -> (status: u16)
        ensures
            status == self.spec_status(),
    {
        match self {
            WebError::AuthenticationFailed => UNAUTHORIZED,
            WebError::EmptyUpload => BAD_REQUEST,
            WebError::IoError(_) => INTERNAL_SERVER_ERROR,
            WebError::ThreadPoolError(_) => INTERNAL_SERVER_ERROR,
            WebError::InvalidUrl => INTERNAL_SERVER_ERROR,
            WebError::BadRequest => BAD_REQUEST,
            WebError::InvalidImage => BAD_REQUEST,
        }
    }

    /// The error in words, for a log or an operator.
    pub fn message(&self) -> (text: String)
        ensures
            text@ == self.spec_message(),
    {
        match self {
            WebError::AuthenticationFailed => String::from_str("authentication failed"),
            WebError::EmptyUpload => String::from_str("tried to upload empty file"),
            WebError::IoError(detail) => String::from_str("i/o error: ").concat(detail.as_str()),
            WebError::ThreadPoolError(detail) => String::from_str("thread pool error: ").concat(
                detail.as_str(),
            ),
            WebError::InvalidUrl => String::from_str("invalid url"),
            WebError::BadRequest => String::from_str("bad request"),
            WebError::InvalidImage => String::from_str("image error"),
        }
    }

    /// The response that reports this error: its status, the authentication
    /// challenge where the client has to authenticate, and its body.
    pub fn into_response(&self) -> (response: ErrorResponse)
        ensures
            response.status == self.spec_status(),
            response.body@ == self.spec_body(),
            match response.challenge {
                Some(challenge) => *self == WebError::AuthenticationFailed && challenge@
                    == "Basic realm=\"i: file upload\""@,
                None => *self != WebError::AuthenticationFailed,
            },
    {
        let status = self.status_code();
        match self {
            WebError::AuthenticationFailed => ErrorResponse {
                status,
                challenge: Some(String::from_str("Basic realm=\"i: file upload\"")),
                body: String::from_str("unauthorized"),
            },
            WebError::EmptyUpload => ErrorResponse {
                status,
                challenge: None,
                body: self.message(),
            },
            WebError::IoError(_) => ErrorResponse {
                status,
                challenge: None,
                body: String::from_str("i/o error"),
            },
            WebError::ThreadPoolError(_) => ErrorResponse {
                status,
                challenge: None,
                body: String::from_str("internal error"),
            },
            WebError::InvalidUrl => ErrorResponse {
                status,
                challenge: None,
                body: String::from_str("invalid url"),
            },
            WebError::BadRequest => ErrorResponse {
                status,
                challenge: None,
                body: String::from_str("bad request"),
            },
            WebError::InvalidImage => ErrorResponse {
                status,
                challenge: None,
                body: String::from_str("invalid image"),
            },
        }
    }
}

} // verus!
