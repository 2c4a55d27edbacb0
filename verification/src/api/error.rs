//! The error taxonomy of the service, with its mapping to status codes
//! and to the uniform error payload.

use vstd::prelude::*;

use crate::api::response::ErrorResponse;

verus! {

/// Ghost image of a service error.
#[verifier::ext_equal]
pub ghost enum ApiErrorView {
    NotFound(Seq<char>),
    BadRequest(Seq<char>),
    Internal(Seq<char>),
    Database(Seq<char>),
    Validation(Seq<char>),
}

/// A service error. `Database` carries the store's own message, which is
/// never shown to a client.
#[derive(Debug)]
pub enum ApiError {
    NotFound(String),
    BadRequest(String),
    Internal(String),
    Database(String),
    Validation(String),
}

impl View for ApiError {
    type V = ApiErrorView;

    open spec fn view(&self) -> ApiErrorView {
        match self {
            ApiError::NotFound(m) => ApiErrorView::NotFound(m@),
            ApiError::BadRequest(m) => ApiErrorView::BadRequest(m@),
            ApiError::Internal(m) => ApiErrorView::Internal(m@),
            ApiError::Database(m) => ApiErrorView::Database(m@),
            ApiError::Validation(m) => ApiErrorView::Validation(m@),
        }
    }
}

/// The HTTP status an error maps to.
pub open spec fn status_of(e: ApiErrorView) -> u16 {
    match e {
        ApiErrorView::NotFound(_) => 404,
        ApiErrorView::BadRequest(_) => 400,
        ApiErrorView::Internal(_) => 500,
        ApiErrorView::Database(_) => 500,
        ApiErrorView::Validation(_) => 422,
    }
}

/// The machine-readable key an error maps to.
pub open spec fn error_key_of(e: ApiErrorView) -> Seq<char> {
    match e {
        ApiErrorView::NotFound(_) => "not_found"@,
        ApiErrorView::BadRequest(_) => "bad_request"@,
        ApiErrorView::Internal(_) => "internal"@,
        ApiErrorView::Database(_) => "database"@,
        ApiErrorView::Validation(_) => "validation"@,
    }
}

/// The message shown to the client: the error's own message, except that
/// store failures are reported generically.
pub open spec fn client_message_of(e: ApiErrorView) -> Seq<char> {
    match e {
        ApiErrorView::NotFound(m) => m,
        ApiErrorView::BadRequest(m) => m,
        ApiErrorView::Internal(m) => m,
        ApiErrorView::Database(_) => "A database error occurred"@,
        ApiErrorView::Validation(m) => m,
    }
}

/// The human-readable rendering of an error.
pub open spec fn api_error_text(e: ApiErrorView) -> Seq<char> {
    match e {
        ApiErrorView::NotFound(m) => "Not found: "@ + m,
        ApiErrorView::BadRequest(m) => "Bad request: "@ + m,
        ApiErrorView::Internal(m) => "Internal error: "@ + m,
        ApiErrorView::Database(m) => "Database error: "@ + m,
        ApiErrorView::Validation(m) => "Validation error: "@ + m,
    }
}

impl ApiError {
    /// The status code of the response this error produces.
    pub fn status_code(&self) -> (r: u16)
        ensures
            r == status_of(self@),
    {
        match self {
            ApiError::NotFound(_) => 404,
            ApiError::BadRequest(_) => 400,
            ApiError::Internal(_) => 500,
            ApiError::Database(_) => 500,
            ApiError::Validation(_) => 422,
        }
    }

    /// The machine-readable key of the response this error produces.
    pub fn error_key(&self) -> (r: &'static str)
        ensures
            r@ == error_key_of(self@),
    {
        match self {
            ApiError::NotFound(_) => "not_found",
            ApiError::BadRequest(_) => "bad_request",
            ApiError::Internal(_) => "internal",
            ApiError::Database(_) => "database",
            ApiError::Validation(_) => "validation",
        }
    }

    /// The status code and payload of the response this error produces;
    /// a store failure is reported generically, every other kind carries
    /// its own message.
    pub fn response_parts(&self) -> (r: (u16, ErrorResponse))
        ensures
            r.0 == status_of(self@),
            r.1@.error == error_key_of(self@),
            r.1@.message == client_message_of(self@),
    {
        let status = self.status_code();
        let key = self.error_key();
        let body = match self {
            ApiError::NotFound(m) => ErrorResponse::new(key, m.as_str()),
            ApiError::BadRequest(m) => ErrorResponse::new(key, m.as_str()),
            ApiError::Internal(m) => ErrorResponse::new(key, m.as_str()),
            ApiError::Database(_) => ErrorResponse::new(key, "A database error occurred"),
            ApiError::Validation(m) => ErrorResponse::new(key, m.as_str()),
        };
        (status, body)
    }

    /// The human-readable rendering of this error.
    pub fn display_string(&self) -> (r: String)
        ensures
            r@ == api_error_text(self@),
    {
        let mut s = match self {
            ApiError::NotFound(_) => String::from_str("Not found: "),
            ApiError::BadRequest(_) => String::from_str("Bad request: "),
            ApiError::Internal(_) => String::from_str("Internal error: "),
            ApiError::Database(_) => String::from_str("Database error: "),
            ApiError::Validation(_) => String::from_str("Validation error: "),
        };
        match self {
            ApiError::NotFound(m) => s.append(m.as_str()),
            ApiError::BadRequest(m) => s.append(m.as_str()),
            ApiError::Internal(m) => s.append(m.as_str()),
            ApiError::Database(m) => s.append(m.as_str()),
            ApiError::Validation(m) => s.append(m.as_str()),
        }
        s
    }
}

} // verus!
