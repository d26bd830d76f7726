//! What can go wrong between a request and its answer.

use vstd::prelude::*;

verus! {

/// `url::ParseError`, opaque.
#[verifier::external_type_specification]
#[verifier::external_body]
pub struct ExParseError(url::ParseError);

/// `reqwest::Error`, opaque.
#[verifier::external_type_specification]
#[verifier::external_body]
pub struct ExReqwestError(reqwest::Error);

/// `serde_json::Error`, opaque.
#[verifier::external_type_specification]
#[verifier::external_body]
pub struct ExSerdeError(serde_json::Error);

/// Why a call of the API gave no answer of the expected type.
#[derive(Debug)]
pub enum ApiError {
    /// The address of the endpoint could not be put together.
    UrlParseError(url::ParseError),
    /// The request could not be built or sent, or its answer not be received.
    ReqwestError(reqwest::Error),
    /// The body of the answer is not the JSON of the expected type.
    SerdeError(serde_json::Error),
    /// A successful answer had nothing but white space in its body.
    EmptyResponse,
    /// The answer has this status, which tells of an error.
    HttpStatus(u16),
}

/// Why a request that was sent gave no result: the API raised an exception of
/// the request's own type, or there is none of that type to tell of.
#[derive(Debug)]
pub enum SendError<E> {
    Exception(E),
    Api(ApiError),
}

/// What decoding gave, with a failure turned into an [`ApiError`].
pub open spec fn serde_outcome<T>(decoded: Result<T, serde_json::Error>) -> Result<T, ApiError> {
    match decoded {
        Ok(value) => Ok(value),
        Err(err) => Err(ApiError::SerdeError(err)),
    }
}

/// Turns a failure to decode into an [`ApiError`].
pub fn from_serde<T>(decoded: Result<T, serde_json::Error>) -> (outcome: Result<T, ApiError>)
    ensures
        outcome == serde_outcome(decoded),
{
    match decoded {
        Ok(value) => Ok(value),
        Err(err) => Err(ApiError::SerdeError(err)),
    }
}

/// A value that was decoded is kept, and a failure to decode is told as such.
pub proof fn decoding_is_told_as_it_went<T>(value: T, err: serde_json::Error)
    ensures
        serde_outcome(Ok::<T, serde_json::Error>(value)) == Ok::<T, ApiError>(value),
        serde_outcome(Err::<T, serde_json::Error>(err)) == Err::<T, ApiError>(
            ApiError::SerdeError(err),
        ),
{
}

}
