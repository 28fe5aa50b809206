//! The failures that a fetch can end in.

use vstd::prelude::*;
use vstd::string::*;
use crate::failure::{decode_failure, failed_in_decoding, failure_detail};

verus! {

/// The result of an operation of this library.
pub type Result<T> = std::result::Result<T, ApiError>;

/// Why a fetch did not yield a value.
#[derive(Debug)]
pub enum ApiError {
    /// The request did not bring a response body: no connection, a
    /// timeout, a name that does not resolve. Holds the transport's words.
    Transport(String),
    /// A body came, but not in the shape that was asked for. Holds the
    /// decoder's words.
    Decode(String),
    /// A failure of no other kind.
    Unknown,
}

/// What an [`ApiError`] holds, as plain text.
pub enum ErrorView {
    Transport(Seq<char>),
    Decode(Seq<char>),
    Unknown,
}

impl View for ApiError {
    type V = ErrorView;

    open spec fn view(&self) -> ErrorView {
        match self {
            ApiError::Transport(d) => ErrorView::Transport(d@),
            ApiError::Decode(d) => ErrorView::Decode(d@),
            ApiError::Unknown => ErrorView::Unknown,
        }
    }
}

/// The text that describes a failure to a reader.
pub open spec fn message_text(e: ErrorView) -> Seq<char> {
    match e {
        ErrorView::Transport(d) => "Request error: "@ + d,
        ErrorView::Decode(d) => "Request error: "@ + d,
        ErrorView::Unknown => "Unknown api error"@,
    }
}

impl ApiError {
    /// Classifies a failed request: a body that did not decode is a
    /// `Decode`, every other failure of the request a `Transport`.
    pub fn from_failure(decode: bool, detail: String) -> (e: ApiError)
        ensures
            decode ==> e == ApiError::Decode(detail),
            !decode ==> e == ApiError::Transport(detail),
    {
        if decode {
            ApiError::Decode(detail)
        } else {
            ApiError::Transport(detail)
        }
    }

    /// The failure of this library that stands for a failure of the HTTP
    /// client: a `Decode` where the client says that it failed while
    /// decoding the body, a `Transport` for every other failure, never
    /// `Unknown`. The detail is the client's own description, of which
    /// nothing is claimed.
    pub fn from_request_error(err: &reqwest::Error) -> (e: ApiError)
        ensures
            e is Decode <==> decode_failure(*err),
            e is Transport <==> !decode_failure(*err),
    {
        let decode = failed_in_decoding(err);
        let detail = failure_detail(err);
        ApiError::from_failure(decode, detail)
    }

    /// Whether the failure came from the request itself.
    pub fn is_transport(&self) -> (b: bool)
        ensures
            b == (self@ is Transport),
    {
        match self {
            ApiError::Transport(_) => true,
            _ => false,
        }
    }

    /// Whether the failure came from decoding the body.
    pub fn is_decode(&self) -> (b: bool)
        ensures
            b == (self@ is Decode),
    {
        match self {
            ApiError::Decode(_) => true,
            _ => false,
        }
    }

    /// Describes the failure in words.
    pub fn message(&self) -> (s: String)
        ensures
            s@ == message_text(self@),
    {
        match self {
            ApiError::Transport(d) => String::from_str("Request error: ").concat(d.as_str()),
            ApiError::Decode(d) => String::from_str("Request error: ").concat(d.as_str()),
            ApiError::Unknown => String::from_str("Unknown api error"),
        }
    }
}

impl Clone for ApiError {
    fn clone(&self) -> (r: Self)
        ensures
            r@ == self@,
    {
        match self {
            ApiError::Transport(d) => ApiError::Transport(d.clone()),
            ApiError::Decode(d) => ApiError::Decode(d.clone()),
            ApiError::Unknown => ApiError::Unknown,
        }
    }
}

} // verus!
