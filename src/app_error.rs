//! The errors that the HTTP layer reports, and how store errors map to them.

use vstd::prelude::*;

use crate::movie::StoreError;

verus! {

/// A failed request as the HTTP layer reports it.
#[derive(Debug)]
pub enum AppError {
    MovieNotFound,
    ValidationError(String),
    Unknown(String),
}

impl AppError {
    /// Not-found from the store becomes `MovieNotFound`; a backend failure
    /// becomes `Unknown` with its message.
    pub fn from_store(e: StoreError) -> (r: AppError)
        ensures
            e is NotFound ==> r is MovieNotFound,
            e matches StoreError::Backend(m) ==> (r matches AppError::Unknown(n) && n == m),
    {
        match e {
            StoreError::NotFound => AppError::MovieNotFound,
            StoreError::Backend(m) => AppError::Unknown(m),
        }
    }

    /// The HTTP status of the error: 404, 400 or 500.
    pub fn status_code(&self) -> (r: u16)
        ensures
            r == (match self {
                AppError::MovieNotFound => 404u16,
                AppError::ValidationError(_) => 400u16,
                AppError::Unknown(_) => 500u16,
            }),
    {
        match self {
            AppError::MovieNotFound => 404,
            AppError::ValidationError(_) => 400,
            AppError::Unknown(_) => 500,
        }
    }

    /// The message shown to the client; details of the cause are not exposed.
    pub fn error_message(&self) -> (r: &'static str)
        ensures
            self is MovieNotFound ==> r@ == "Movie not found"@,
            self is ValidationError ==> r@ == "validation error"@,
            self is Unknown ==> r@ == "unknown error"@,
    {
        match self {
            AppError::MovieNotFound => "Movie not found",
            AppError::ValidationError(_) => "validation error",
            AppError::Unknown(_) => "unknown error",
        }
    }
}

} // verus!
