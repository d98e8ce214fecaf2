//! The error kinds the management surface reports, each with its HTTP
//! status and body text. Database and outbound-HTTP faults are carried as
//! their rendered text.

use vstd::prelude::*;

verus! {

#[derive(Debug)]
pub enum AppError {
    /// A database fault, with the driver's rendered error text.
    Database(String),
    /// An outbound HTTP fault.
    External(String),
    Unauthorized,
    NotFound(String),
    BadRequest(String),
    Forbidden(String),
    ServiceUnavailable(String),
    InternalServerError(String),
}

impl AppError {
    /// The HTTP status this error maps to.
    pub open spec fn spec_status_code(&self) -> u16 {
        match *self {
            AppError::Database(_) => 500,
            AppError::External(_) => 500,
            AppError::Unauthorized => 401,
            AppError::NotFound(_) => 404,
            AppError::BadRequest(_) => 400,
            AppError::Forbidden(_) => 403,
            AppError::ServiceUnavailable(_) => 503,
            AppError::InternalServerError(_) => 500,
        }
    }

    pub fn status_code(&self) -> (s: u16)
        ensures
            s == self.spec_status_code(),
    {
        match self {
            AppError::Database(_) => 500,
            AppError::External(_) => 500,
            AppError::Unauthorized => 401,
            AppError::NotFound(_) => 404,
            AppError::BadRequest(_) => 400,
            AppError::Forbidden(_) => 403,
            AppError::ServiceUnavailable(_) => 503,
            AppError::InternalServerError(_) => 500,
        }
    }

    /// The body text reported to the caller: database faults are prefixed,
    /// outbound faults are masked, the rest carry their own message.
    pub open spec fn spec_message(&self) -> Seq<char> {
        match *self {
            AppError::Database(m) => "Database error: "@ + m@,
            AppError::External(_) => "External service communication error"@,
            AppError::Unauthorized => "Unauthorized: Invalid API Key"@,
            AppError::NotFound(m) => m@,
            AppError::BadRequest(m) => m@,
            AppError::Forbidden(m) => m@,
            AppError::ServiceUnavailable(m) => m@,
            AppError::InternalServerError(m) => m@,
        }
    }

    pub fn message(&self) -> (r: String)
        ensures
            r@ == self.spec_message(),
    {
        match self {
            AppError::Database(m) => {
                let mut s = "Database error: ".to_owned();
                s.append(m.as_str());
                s
            },
            AppError::External(_) => "External service communication error".to_owned(),
            AppError::Unauthorized => "Unauthorized: Invalid API Key".to_owned(),
            AppError::NotFound(m) => m.clone(),
            AppError::BadRequest(m) => m.clone(),
            AppError::Forbidden(m) => m.clone(),
            AppError::ServiceUnavailable(m) => m.clone(),
            AppError::InternalServerError(m) => m.clone(),
        }
    }
}

} // verus!
