use vstd::prelude::*;
use crate::data_stores::{TwoFACodeStoreError, UserStoreError};
use crate::email::EmailError;
use crate::password::PasswordError;

verus! {

/// The body of every error response.
#[derive(Debug, Clone, PartialEq, Eq)]
pub struct ErrorResponse {
    pub error: String,
}

/// The failures the service reports, one per response status.
#[derive(Debug, PartialEq, Eq, Clone, Copy)]
pub enum AuthAPIError {
    /// 400
    InvalidCredentials,
    /// 400
    MissingToken,
    /// 401
    Unauthorized,
    /// 401
    InvalidToken,
    /// 404
    UserNotFound,
    /// 409
    UserAlreadyExists,
    /// 422
    UnprocessableContent,
    /// 500
    UnexpectedError,
}

pub open spec fn status_of(e: AuthAPIError) -> u16 {
    match e {
        AuthAPIError::InvalidCredentials => 400,
        AuthAPIError::MissingToken => 400,
        AuthAPIError::Unauthorized => 401,
        AuthAPIError::InvalidToken => 401,
        AuthAPIError::UserNotFound => 404,
        AuthAPIError::UserAlreadyExists => 409,
        AuthAPIError::UnprocessableContent => 422,
        AuthAPIError::UnexpectedError => 500,
    }
}

pub open spec fn message_of(e: AuthAPIError) -> Seq<char> {
    match e {
        AuthAPIError::InvalidCredentials => "Invalid credentials"@,
        AuthAPIError::MissingToken => "Missing JWT auth token"@,
        AuthAPIError::Unauthorized => "Unauthorized"@,
        AuthAPIError::InvalidToken => "Invalid JWT auth token"@,
        AuthAPIError::UserNotFound => "User not found"@,
        AuthAPIError::UserAlreadyExists => "User already exists"@,
        AuthAPIError::UnprocessableContent => "Unprocessable content"@,
        AuthAPIError::UnexpectedError => "Unexpected error"@,
    }
}

impl AuthAPIError {
    /// The HTTP status this error is reported with.
    pub fn status_code(&self) -> (r: u16)
        ensures
            r == status_of(*self),
    {
        match self {
            AuthAPIError::InvalidCredentials => 400,
            AuthAPIError::MissingToken => 400,
            AuthAPIError::Unauthorized => 401,
            AuthAPIError::InvalidToken => 401,
            AuthAPIError::UserNotFound => 404,
            AuthAPIError::UserAlreadyExists => 409,
            AuthAPIError::UnprocessableContent => 422,
            AuthAPIError::UnexpectedError => 500,
        }
    }

    /// The response body for this error; it never holds a password or a hash.
    pub fn to_error_response(&self) -> (r: ErrorResponse)
        ensures
            r.error@ == message_of(*self),
    {
        let text = match self {
            AuthAPIError::InvalidCredentials => "Invalid credentials",
            AuthAPIError::MissingToken => "Missing JWT auth token",
            AuthAPIError::Unauthorized => "Unauthorized",
            AuthAPIError::InvalidToken => "Invalid JWT auth token",
            AuthAPIError::UserNotFound => "User not found",
            AuthAPIError::UserAlreadyExists => "User already exists",
            AuthAPIError::UnprocessableContent => "Unprocessable content",
            AuthAPIError::UnexpectedError => "Unexpected error",
        };
        ErrorResponse { error: String::from_str(text) }
    }
}

/// The error reported for a failure of the account store.
pub open spec fn user_store_error_spec(e: UserStoreError) -> AuthAPIError {
    match e {
        UserStoreError::UserNotFound => AuthAPIError::UserNotFound,
        UserStoreError::InvalidCredentials => AuthAPIError::InvalidCredentials,
        UserStoreError::UserAlreadyExists => AuthAPIError::UserAlreadyExists,
        UserStoreError::UnexpectedError => AuthAPIError::UnexpectedError,
    }
}

impl From<UserStoreError> for AuthAPIError {
    fn from(err: UserStoreError) -> (r: AuthAPIError) {
        match err {
            UserStoreError::UserNotFound => AuthAPIError::UserNotFound,
            UserStoreError::InvalidCredentials => AuthAPIError::InvalidCredentials,
            UserStoreError::UserAlreadyExists => AuthAPIError::UserAlreadyExists,
            UserStoreError::UnexpectedError => AuthAPIError::UnexpectedError,
        }
    }
}

impl vstd::std_specs::convert::FromSpecImpl<UserStoreError> for AuthAPIError {
    open spec fn obeys_from_spec() -> bool {
        true
    }

    open spec fn from_spec(v: UserStoreError) -> AuthAPIError {
        user_store_error_spec(v)
    }
}

impl From<EmailError> for AuthAPIError {
    fn from(err: EmailError) -> (r: AuthAPIError) {
        AuthAPIError::InvalidCredentials
    }
}

impl vstd::std_specs::convert::FromSpecImpl<EmailError> for AuthAPIError {
    open spec fn obeys_from_spec() -> bool {
        true
    }

    open spec fn from_spec(v: EmailError) -> AuthAPIError {
        AuthAPIError::InvalidCredentials
    }
}

impl From<PasswordError> for AuthAPIError {
    fn from(err: PasswordError) -> (r: AuthAPIError) {
        AuthAPIError::InvalidCredentials
    }
}

impl vstd::std_specs::convert::FromSpecImpl<PasswordError> for AuthAPIError {
    open spec fn obeys_from_spec() -> bool {
        true
    }

    open spec fn from_spec(v: PasswordError) -> AuthAPIError {
        AuthAPIError::InvalidCredentials
    }
}

/// The error reported for a failure of the challenge store.
pub open spec fn code_store_error_spec(e: TwoFACodeStoreError) -> AuthAPIError {
    match e {
        TwoFACodeStoreError::CodeNotFound => AuthAPIError::Unauthorized,
        TwoFACodeStoreError::CodeAlreadyExists => AuthAPIError::UserAlreadyExists,
    }
}

impl From<TwoFACodeStoreError> for AuthAPIError {
    fn from(err: TwoFACodeStoreError) -> (r: AuthAPIError) {
        match err {
            TwoFACodeStoreError::CodeNotFound => AuthAPIError::Unauthorized,
            TwoFACodeStoreError::CodeAlreadyExists => AuthAPIError::UserAlreadyExists,
        }
    }
}

impl vstd::std_specs::convert::FromSpecImpl<TwoFACodeStoreError> for AuthAPIError {
    open spec fn obeys_from_spec() -> bool {
        true
    }

    open spec fn from_spec(v: TwoFACodeStoreError) -> AuthAPIError {
        code_store_error_spec(v)
    }
}

} // verus!
