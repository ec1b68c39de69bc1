//! Reading the platform's numeric code out of an HTTP error

use vstd::prelude::*;

verus! {

/// The numeric code that the platform's response carried, where the error is
/// a response that holds a general API error; `None` for every other error
pub uninterp spec fn api_error_code(err: twilight_http::Error) -> Option<u64>;

/// Calls `twilight_http::Error::kind` and tells its variants apart: the code
/// field of the general API error inside a `Response`, `None` for anything
/// else. The contract gives that result its name.
#[verifier::external_body]
pub(crate) fn general_api_code(err: &twilight_http::Error) -> (code: Option<u64>)
    ensures
        code == api_error_code(*err),
{
    match err.kind() {
        twilight_http::error::ErrorType::Response {
            error: twilight_http::api_error::ApiError::General(general),
            ..
        } => Some(general.code),
        _ => None,
    }
}

/// Extracting data from an HTTP error
pub trait HttpErrorExt {
    /// The code that [`HttpErrorExt::code`] returns
    spec fn code_spec(&self) -> Option<u64>;

    /// Return the general API error code of the error, `None` if the error
    /// is not a general API error
    fn code(&self) -> (code: Option<u64>)
        ensures
            code == self.code_spec(),
    ;

    /// Return whether this error is related to missing permissions
    fn missing_permissions(&self) -> (is: bool)
        ensures
            is == (self.code_spec() == Some(50013u64)),
    ;

    /// Return whether this is a `Missing access` error
    fn missing_access(&self) -> (is: bool)
        ensures
            is == (self.code_spec() == Some(50001u64)),
    ;

    /// Return whether this error is an `Unknown message` error, useful to
    /// check if the error occurred because the message was deleted before
    /// the request was sent
    fn unknown_message(&self) -> (is: bool)
        ensures
            is == (self.code_spec() == Some(10008u64)),
    ;

    /// Return whether this error is a `Cannot send messages to this user`
    /// error
    fn failed_dm(&self) -> (is: bool)
        ensures
            is == (self.code_spec() == Some(50007u64)),
    ;

    /// Return whether this error is a `Reaction blocked` error, returned
    /// when trying to add a reaction to a message whose author blocked the
    /// bot
    fn reaction_blocked(&self) -> (is: bool)
        ensures
            is == (self.code_spec() == Some(90001u64)),
    ;
}

/// Whether `code` holds exactly `expected`
pub fn code_is(code: Option<u64>, expected: u64) -> (is: bool)
    ensures
        is == (code == Some(expected)),
{
    match code {
        Some(found) => found == expected,
        None => false,
    }
}

impl HttpErrorExt for twilight_http::Error {
    open spec fn code_spec(&self) -> Option<u64> {
        api_error_code(*self)
    }

    fn code(&self) -> (code: Option<u64>) {
        general_api_code(self)
    }

    fn missing_permissions(&self) -> (is: bool) {
        code_is(self.code(), crate::error::http_error::MISSING_PERMISSIONS)
    }

    fn missing_access(&self) -> (is: bool) {
        code_is(self.code(), crate::error::http_error::MISSING_ACCESS)
    }

    fn unknown_message(&self) -> (is: bool) {
        code_is(self.code(), crate::error::http_error::UNKNOWN_MESSAGE)
    }

    fn failed_dm(&self) -> (is: bool) {
        code_is(self.code(), crate::error::http_error::FAILED_DM)
    }

    fn reaction_blocked(&self) -> (is: bool) {
        code_is(self.code(), crate::error::http_error::REACTION_BLOCKED)
    }
}

} // verus!
