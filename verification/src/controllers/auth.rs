//! The answers of the registration and sign-in endpoints to a failure.

use vstd::prelude::*;
use crate::http::{HttpStatus, Reply};
use crate::models::user::{api_error_views, spec_error_entity, ApiError, ApiErrorView, ApiResponse};
use crate::services::auth_service::{
    spec_invalid_credentials_message,
    spec_user_exists_message,
};
use crate::text::same_text;

verus! {

/// A failure as it is answered and counted: the status, the code and the
/// cause of the error, and the tag of the failure counter.
#[derive(Debug, Clone, Copy, PartialEq, Eq, Structural)]
pub enum AuthFailure {
    /// The request does not pass validation.
    Rejected,
    /// The address has an account already.
    UserExists,
    /// The address or the password is wrong.
    InvalidCredentials,
    /// Anything else.
    System,
}

impl AuthFailure {
    /// The status that the failure is answered with.
    pub open spec fn spec_status(self) -> HttpStatus {
        match self {
            AuthFailure::System => HttpStatus::InternalServerError,
            _ => HttpStatus::UnprocessableEntity,
        }
    }

    /// The code of the error.
    pub open spec fn spec_code(self) -> Seq<char> {
        match self {
            AuthFailure::Rejected => "1001"@,
            AuthFailure::UserExists => "1002"@,
            AuthFailure::InvalidCredentials => "1001"@,
            AuthFailure::System => "1000"@,
        }
    }

    /// The cause of the error.
    pub open spec fn spec_cause(self) -> Seq<char> {
        match self {
            AuthFailure::Rejected => "INVALID_EMAIL_OR_PASSWORD"@,
            AuthFailure::UserExists => "USER_ALREADY_EXISTS"@,
            AuthFailure::InvalidCredentials => "INVALID_EMAIL_OR_PASSWORD"@,
            AuthFailure::System => "SYSTEM_ERROR"@,
        }
    }

    /// The value of the `error` tag of the failure counter; a request that
    /// does not pass validation is counted without one.
    pub open spec fn spec_tag(self) -> Option<Seq<char>> {
        match self {
            AuthFailure::Rejected => None,
            AuthFailure::UserExists => Some("user_exists"@),
            AuthFailure::InvalidCredentials => Some("invalid_credentials"@),
            AuthFailure::System => Some("system_error"@),
        }
    }

    /// The failure of a registration, by the message it failed with: an
    /// existing account where the message says so, a system failure otherwise.
    pub open spec fn spec_of_registration(message: Seq<char>) -> AuthFailure {
        if message == spec_user_exists_message() {
            AuthFailure::UserExists
        } else {
            AuthFailure::System
        }
    }

    /// The failure of a sign-in, by the message it failed with: wrong
    /// credentials where the message says so, a system failure otherwise.
    pub open spec fn spec_of_sign_in(message: Seq<char>) -> AuthFailure {
        if message == spec_invalid_credentials_message() {
            AuthFailure::InvalidCredentials
        } else {
            AuthFailure::System
        }
    }

    /// The failure of a registration, by the message it failed with.
    pub fn of_registration(message: &str) -> (r: AuthFailure)
        ensures
            r == Self::spec_of_registration(message@),
    {
        if same_text(message, "User already exists") {
            AuthFailure::UserExists
        } else {
            AuthFailure::System
        }
    }

    /// The failure of a sign-in, by the message it failed with.
    pub fn of_sign_in(message: &str) -> (r: AuthFailure)
        ensures
            r == Self::spec_of_sign_in(message@),
    {
        if same_text(message, "Invalid email or password") {
            AuthFailure::InvalidCredentials
        } else {
            AuthFailure::System
        }
    }

    /// The value of the `error` tag of the failure counter.
    pub fn tag(&self) -> (r: Option<&'static str>)
        ensures
            match r {
                Some(text) => self.spec_tag() == Some(text@),
                None => self.spec_tag() is None,
            },
    {
        match self {
            AuthFailure::Rejected => None,
            AuthFailure::UserExists => Some("user_exists"),
            AuthFailure::InvalidCredentials => Some("invalid_credentials"),
            AuthFailure::System => Some("system_error"),
        }
    }

    /// The answer to the failure: its status, and the one error that reports it.
    pub fn reply<T>(&self) -> (r: Reply<T>)
        ensures
            r.status == self.spec_status(),
            !r.body.success,
            r.body.data is None,
            r.body.errors matches Some(errors) && api_error_views(errors@) == seq![
                ApiErrorView {
                    entity: spec_error_entity(),
                    code: self.spec_code(),
                    cause: self.spec_cause(),
                },
            ],
    {
        let (status, code, cause) = match self {
            AuthFailure::Rejected => (
                HttpStatus::UnprocessableEntity,
                "1001",
                "INVALID_EMAIL_OR_PASSWORD",
            ),
            AuthFailure::UserExists => (HttpStatus::UnprocessableEntity, "1002", "USER_ALREADY_EXISTS"),
            AuthFailure::InvalidCredentials => (
                HttpStatus::UnprocessableEntity,
                "1001",
                "INVALID_EMAIL_OR_PASSWORD",
            ),
            AuthFailure::System => (HttpStatus::InternalServerError, "1000", "SYSTEM_ERROR"),
        };
        let error = ApiError::new(code, cause.to_owned());
        let mut errors: Vec<ApiError> = Vec::new();
        errors.push(error);
        assert(api_error_views(errors@) =~= seq![error@]);
        Reply { status, body: ApiResponse::failed(errors) }
    }
}

} // verus!
