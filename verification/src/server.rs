//! The gateway's error surface: the error kinds the HTTP layer maps to
//! responses, with their status codes and messages.

use vstd::prelude::*;

verus! {

/// An error a gateway endpoint surfaces to the client.
#[derive(Debug)]
pub enum AppError {
    /// No valid authentication: the user must log in again.
    Unauthorized(String),
    /// The upstream failed or misbehaved.
    InternalServerError(String),
    /// The inbound body did not parse into the expected shape.
    BadRequest(String),
}

impl AppError {
    /// The HTTP status code each error kind maps to.
    pub fn status_code(&self) -> (r: u16)
        ensures
            r == (match self {
                AppError::Unauthorized(_) => 401u16,
                AppError::InternalServerError(_) => 500u16,
                AppError::BadRequest(_) => 400u16,
            }),
    {
        match self {
            AppError::Unauthorized(_) => 401,
            AppError::InternalServerError(_) => 500,
            AppError::BadRequest(_) => 400,
        }
    }

    /// The message carried by the error.
    pub fn message(&self) -> (r: String)
        ensures
            r == (match self {
                AppError::Unauthorized(m) => m,
                AppError::InternalServerError(m) => m,
                AppError::BadRequest(m) => m,
            }),
    {
        match self {
            AppError::Unauthorized(m) => m.clone(),
            AppError::InternalServerError(m) => m.clone(),
            AppError::BadRequest(m) => m.clone(),
        }
    }
}

} // verus!
