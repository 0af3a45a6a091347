//! Accounts, and the envelope every endpoint answers with.

use vstd::prelude::*;
use crate::validation::{email_is_accepted, has_length_of, is_email};

verus! {

/// The entity every structured error of this service names.
pub open spec fn spec_error_entity() -> Seq<char> {
    "SOCIO_ECHO_BE"@
}

/// A registered account.
#[derive(Debug, Clone, PartialEq, Eq)]
pub struct User {
    pub id: i32,
    pub name: String,
    pub email: String,
    pub password_hash: String,
}

/// What a caller sends to open an account.
#[derive(Debug, Clone, PartialEq, Eq)]
pub struct RegisterRequest {
    pub email: String,
    pub password: String,
    pub name: String,
}

/// What a caller sends to sign in.
#[derive(Debug, Clone, PartialEq, Eq)]
pub struct LoginRequest {
    pub email: String,
    pub password: String,
}

/// The least number of characters of a password.
pub const PASSWORD_MIN_CHARS: usize = 6;

impl RegisterRequest {
    /// Whether the fields are acceptable, given whether the e-mail address
    /// is: the password has at least six characters and the name is not empty.
    pub open spec fn spec_is_valid(self, email_accepted: bool) -> bool {
        email_accepted && self.password@.len() >= PASSWORD_MIN_CHARS && self.name@.len() >= 1
    }

    /// Whether the fields other than the e-mail address are acceptable, and
    /// the address is, as `email_accepted` says.
    pub fn is_valid_with(&self, email_accepted: bool) -> (r: bool)
        ensures
            r == self.spec_is_valid(email_accepted),
    {
        email_accepted && has_length_of(self.password.as_str(), PASSWORD_MIN_CHARS) && has_length_of(
            self.name.as_str(),
            1,
        )
    }

    /// Whether the request is acceptable: an accepted e-mail address, a
    /// password of at least six characters, a name that is not empty.
    pub fn is_valid(&self) -> (r: bool)
        ensures
            r == self.spec_is_valid(email_is_accepted(self.email@)),
    {
        let email_accepted = is_email(self.email.as_str());
        self.is_valid_with(email_accepted)
    }
}

impl LoginRequest {
    /// Whether the fields are acceptable, given whether the e-mail address
    /// is: the password has at least six characters.
    pub open spec fn spec_is_valid(self, email_accepted: bool) -> bool {
        email_accepted && self.password@.len() >= PASSWORD_MIN_CHARS
    }

    /// Whether the password is acceptable, and the e-mail address is, as
    /// `email_accepted` says.
    pub fn is_valid_with(&self, email_accepted: bool) -> (r: bool)
        ensures
            r == self.spec_is_valid(email_accepted),
    {
        email_accepted && has_length_of(self.password.as_str(), PASSWORD_MIN_CHARS)
    }

    /// Whether the request is acceptable: an accepted e-mail address and a
    /// password of at least six characters.
    pub fn is_valid(&self) -> (r: bool)
        ensures
            r == self.spec_is_valid(email_is_accepted(self.email@)),
    {
        let email_accepted = is_email(self.email.as_str());
        self.is_valid_with(email_accepted)
    }
}

/// One structured error: who reports it, a stable numeric code, and a cause.
#[derive(Debug, Clone, PartialEq, Eq)]
pub struct ApiError {
    pub entity: String,
    pub code: String,
    pub cause: String,
}

/// The characters of an [`ApiError`].
pub struct ApiErrorView {
    pub entity: Seq<char>,
    pub code: Seq<char>,
    pub cause: Seq<char>,
}

impl View for ApiError {
    type V = ApiErrorView;

    open spec fn view(&self) -> ApiErrorView {
        ApiErrorView { entity: self.entity@, code: self.code@, cause: self.cause@ }
    }
}

/// The views of a list of errors, in order.
pub open spec fn api_error_views(errors: Seq<ApiError>) -> Seq<ApiErrorView> {
    errors.map_values(|e: ApiError| e@)
}

/// Whether some error of the list carries `code`.
pub open spec fn spec_any_code(errors: Seq<ApiError>, code: Seq<char>) -> bool {
    exists|i: int| 0 <= i < errors.len() && (#[trigger] errors[i]).code@ == code
}

impl ApiError {
    /// An error of this service with the given code and cause.
    pub fn new(code: &str, cause: String) -> (r: ApiError)
        ensures
            r@ == (ApiErrorView { entity: spec_error_entity(), code: code@, cause: cause@ }),
    {
        ApiError { entity: "SOCIO_ECHO_BE".to_owned(), code: code.to_owned(), cause }
    }
}

/// The envelope of every answer: a payload on success, a list of errors otherwise.
#[derive(Debug, Clone, PartialEq, Eq)]
pub struct ApiResponse<T> {
    pub success: bool,
    pub data: Option<T>,
    pub errors: Option<Vec<ApiError>>,
}

impl<T> ApiResponse<T> {
    /// The envelope of a successful answer.
    pub fn succeeded(data: T) -> (r: ApiResponse<T>)
        ensures
            r.success,
            r.data == Some(data),
            r.errors is None,
    {
        ApiResponse { success: true, data: Some(data), errors: None }
    }

    /// The envelope of a failed answer.
    pub fn failed(errors: Vec<ApiError>) -> (r: ApiResponse<T>)
        ensures
            !r.success,
            r.data is None,
            r.errors == Some(errors),
    {
        ApiResponse { success: false, data: None, errors: Some(errors) }
    }
}

} // verus!
