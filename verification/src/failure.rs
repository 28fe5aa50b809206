//! What this library asks of a failure of the HTTP client.

use vstd::prelude::*;

verus! {

/// `reqwest::Error`, the HTTP client's own error type. Nothing of its
/// inside is visible here: it is asked through the functions below.
#[verifier::external_type_specification]
#[verifier::external_body]
pub struct ExRequestError(reqwest::Error);

/// What `reqwest::Error::is_decode` answers for `err`: whether the client
/// failed while it decoded a response body. The answer is read off the
/// kind that the error was made with, so one error always gives the same
/// answer.
pub uninterp spec fn decode_failure(err: reqwest::Error) -> bool;

/// Asks `reqwest::Error::is_decode` whether the client failed while it
/// decoded a response body. The answer is given its name; nothing else is
/// claimed of it.
#[verifier::external_body]
pub(crate) fn failed_in_decoding(err: &reqwest::Error) -> (decode: bool)
    ensures
        decode == decode_failure(*err),
{
    err.is_decode()
}

/// The client's own description of its failure, as the `Display` of
/// `reqwest::Error` writes it. Nothing is claimed of the text.
#[verifier::external_body]
pub(crate) fn failure_detail(err: &reqwest::Error) -> (detail: String) {
    err.to_string()
}

} // verus!
