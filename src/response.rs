//! The two-armed response envelope: a success payload, or the exchange's
//! error object, told apart by shape alone.

use crate::error::{ApiError, Error};
use vstd::prelude::*;

verus! {

/// A decoded response body.
#[derive(Clone, Debug)]
pub enum Response<T> {
    /// The body has the shape of the endpoint's payload.
    Success(T),
    /// The body is the exchange's error object.
    Failure(ApiError),
}

/// What a decoded envelope gives the caller.
pub open spec fn outcome_of<T>(r: Response<T>) -> Result<T, Error> {
    match r {
        Response::Success(p) => Ok(p),
        Response::Failure(e) => Err(Error::ResponseError(e)),
    }
}

/// What a body gives, from the two attempts made on it: as the payload, and
/// as the error object. The payload shape is tried first; a body that has
/// neither shape (or is not JSON at all) is a parse failure with the raw body.
pub open spec fn decoded_of<T>(body: String, payload: Option<T>, error: Option<ApiError>) -> Result<T, Error> {
    match payload {
        Some(p) => Ok(p),
        None => match error {
            Some(e) => Err(Error::ResponseError(e)),
            None => Err(Error::ResponseParsing(body)),
        },
    }
}

impl<T> Response<T> {
    /// The payload, or the exchange's error as an API error.
    pub fn into_result(self) -> (r: Result<T, Error>)
        ensures
            r == outcome_of(self),
    {
        match self {
            Response::Success(p) => Ok(p),
            Response::Failure(e) => Err(Error::ResponseError(e)),
        }
    }
}

/// Decodes a response body from the attempts to read it as the endpoint's
/// payload (`payload`) and as the error object (`error`).
pub fn decode<T>(body: String, payload: Option<T>, error: Option<ApiError>) -> (r: Result<T, Error>)
    ensures
        r == decoded_of(body, payload, error),
{
    match payload {
        Some(p) => Ok(p),
        None => match error {
            Some(e) => Err(Error::ResponseError(e)),
            None => Err(Error::ResponseParsing(body)),
        },
    }
}

} // verus!
