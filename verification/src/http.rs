//! The status classes that the endpoints answer with.

use vstd::prelude::*;
use crate::models::user::ApiResponse;

verus! {

/// The status of an answer.
#[derive(Debug, Clone, Copy, PartialEq, Eq, Structural)]
pub enum HttpStatus {
    Success,
    BadRequest,
    Unauthorized,
    UnprocessableEntity,
    InternalServerError,
}

impl HttpStatus {
    /// The numeric code of the status.
    pub open spec fn spec_code(self) -> u16 {
        match self {
            HttpStatus::Success => 200,
            HttpStatus::BadRequest => 400,
            HttpStatus::Unauthorized => 401,
            HttpStatus::UnprocessableEntity => 422,
            HttpStatus::InternalServerError => 500,
        }
    }

    /// The numeric code of the status.
    pub fn code(&self) -> (r: u16)
        ensures
            r == self.spec_code(),
    {
        match self {
            HttpStatus::Success => 200,
            HttpStatus::BadRequest => 400,
            HttpStatus::Unauthorized => 401,
            HttpStatus::UnprocessableEntity => 422,
            HttpStatus::InternalServerError => 500,
        }
    }
}

/// Whether a numeric status code reports success: the codes 200 to 299.
pub open spec fn spec_is_success(code: u16) -> bool {
    200 <= code <= 299
}

/// Whether a numeric status code reports success.
pub fn is_success(code: u16) -> (r: bool)
    ensures
        r == spec_is_success(code),
{
    200 <= code && code <= 299
}

/// An answer: its status and its envelope.
#[derive(Debug, Clone, PartialEq, Eq)]
pub struct Reply<T> {
    pub status: HttpStatus,
    pub body: ApiResponse<T>,
}

} // verus!
