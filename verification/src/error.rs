//! The service's error taxonomy, its display strings, and its mapping to
//! HTTP status codes and wire-format error details.

use vstd::prelude::*;
use vstd::string::StringExecFns;

verus! {

/// Application error. Errors raised by outside systems are carried as text.
#[derive(Clone, Debug)]
pub enum AppError {
    Database(String),
    Auth(String),
    Authorization(String),
    Validation(String),
    Task(String),
    Monitoring(String),
    External(String),
    NotFound(String),
    Internal(String),
}

/// Result alias used throughout the service.
pub type AppResult<T> = Result<T, AppError>;

/// Error payload returned to API clients. `details` holds optional
/// key-value context.
#[derive(Clone, Debug)]
pub struct ErrorDetail {
    pub code: String,
    pub message: String,
    pub details: Option<Vec<(String, String)>>,
}

/// The one-line rendering of an error, as logs and tests show it.
pub open spec fn spec_error_display(e: AppError) -> Seq<char> {
    match e {
        AppError::Database(m) => "Database error: "@ + m@,
        AppError::Auth(m) => "Authentication error: "@ + m@,
        AppError::Authorization(m) => "Authorization error: "@ + m@,
        AppError::Validation(m) => "Validation error: "@ + m@,
        AppError::Task(m) => "Task error: "@ + m@,
        AppError::Monitoring(m) => "Monitoring error: "@ + m@,
        AppError::External(m) => "External service error: "@ + m@,
        AppError::NotFound(m) => "Not found: "@ + m@,
        AppError::Internal(m) => "Internal server error: "@ + m@,
    }
}

/// The HTTP status an error maps to.
pub open spec fn spec_error_status(e: AppError) -> int {
    match e {
        AppError::Database(_) => 500,
        AppError::Auth(_) => 401,
        AppError::Authorization(_) => 403,
        AppError::Validation(_) => 400,
        AppError::Task(_) => 500,
        AppError::Monitoring(_) => 500,
        AppError::External(_) => 503,
        AppError::NotFound(_) => 404,
        AppError::Internal(_) => 500,
    }
}

/// The machine-readable code an error maps to.
pub open spec fn spec_error_code(e: AppError) -> Seq<char> {
    match e {
        AppError::Database(_) => "DATABASE_ERROR"@,
        AppError::Auth(_) => "AUTHENTICATION_ERROR"@,
        AppError::Authorization(_) => "AUTHORIZATION_ERROR"@,
        AppError::Validation(_) => "VALIDATION_ERROR"@,
        AppError::Task(_) => "TASK_ERROR"@,
        AppError::Monitoring(_) => "MONITORING_ERROR"@,
        AppError::External(_) => "EXTERNAL_SERVICE_ERROR"@,
        AppError::NotFound(_) => "NOT_FOUND"@,
        AppError::Internal(_) => "INTERNAL_ERROR"@,
    }
}

/// The client-facing message of an error detail. Database and internal
/// errors are masked; the raw text moves to the details.
pub open spec fn spec_error_public_message(e: AppError) -> Seq<char> {
    match e {
        AppError::Database(_) => "A database error occurred"@,
        AppError::Auth(m) => m@,
        AppError::Authorization(m) => m@,
        AppError::Validation(m) => m@,
        AppError::Task(m) => m@,
        AppError::Monitoring(m) => m@,
        AppError::External(m) => m@,
        AppError::NotFound(m) => m@,
        AppError::Internal(_) => "An internal error occurred"@,
    }
}

/// Whether the detail carries the raw error text under the `error` key.
pub open spec fn spec_error_has_details(e: AppError) -> bool {
    match e {
        AppError::Database(_) => true,
        AppError::Internal(_) => true,
        _ => false,
    }
}

/// The raw text of the error, whichever variant holds it.
pub open spec fn spec_error_text(e: AppError) -> Seq<char> {
    match e {
        AppError::Database(m) => m@,
        AppError::Auth(m) => m@,
        AppError::Authorization(m) => m@,
        AppError::Validation(m) => m@,
        AppError::Task(m) => m@,
        AppError::Monitoring(m) => m@,
        AppError::External(m) => m@,
        AppError::NotFound(m) => m@,
        AppError::Internal(m) => m@,
    }
}

impl AppError {
    /// Render the error as its one-line display string.
    pub fn display_message(&self) -> (r: String)
        ensures
            r@ == spec_error_display(*self),
    {
        let mut s = String::new();
        match self {
            AppError::Database(m) => {
                s.append("Database error: ");
                s.append(m.as_str());
            },
            AppError::Auth(m) => {
                s.append("Authentication error: ");
                s.append(m.as_str());
            },
            AppError::Authorization(m) => {
                s.append("Authorization error: ");
                s.append(m.as_str());
            },
            AppError::Validation(m) => {
                s.append("Validation error: ");
                s.append(m.as_str());
            },
            AppError::Task(m) => {
                s.append("Task error: ");
                s.append(m.as_str());
            },
            AppError::Monitoring(m) => {
                s.append("Monitoring error: ");
                s.append(m.as_str());
            },
            AppError::External(m) => {
                s.append("External service error: ");
                s.append(m.as_str());
            },
            AppError::NotFound(m) => {
                s.append("Not found: ");
                s.append(m.as_str());
            },
            AppError::Internal(m) => {
                s.append("Internal server error: ");
                s.append(m.as_str());
            },
        }
        assert(s@ =~= spec_error_display(*self));
        s
    }

    /// Map the error to its HTTP status code and client-facing detail.
    pub fn to_error_detail(self) -> (r: (u16, ErrorDetail))
        ensures
            r.0 as int == spec_error_status(self),
            r.1.code@ == spec_error_code(self),
            r.1.message@ == spec_error_public_message(self),
            spec_error_has_details(self) ==> (r.1.details matches Some(d) && d@.len() == 1
                && d@[0].0@ == "error"@ && d@[0].1@ == spec_error_text(self)),
            !spec_error_has_details(self) ==> r.1.details is None,
    {
        match self {
            AppError::Database(m) => {
                let pair = (String::from_str("error"), m);
                let detail = ErrorDetail {
                    code: String::from_str("DATABASE_ERROR"),
                    message: String::from_str("A database error occurred"),
                    details: Some(vec![pair]),
                };
                (500, detail)
            },
            AppError::Auth(m) => {
                let detail = ErrorDetail {
                    code: String::from_str("AUTHENTICATION_ERROR"),
                    message: m,
                    details: None,
                };
                (401, detail)
            },
            AppError::Authorization(m) => {
                let detail = ErrorDetail {
                    code: String::from_str("AUTHORIZATION_ERROR"),
                    message: m,
                    details: None,
                };
                (403, detail)
            },
            AppError::Validation(m) => {
                let detail = ErrorDetail {
                    code: String::from_str("VALIDATION_ERROR"),
                    message: m,
                    details: None,
                };
                (400, detail)
            },
            AppError::Task(m) => {
                let detail = ErrorDetail {
                    code: String::from_str("TASK_ERROR"),
                    message: m,
                    details: None,
                };
                (500, detail)
            },
            AppError::Monitoring(m) => {
                let detail = ErrorDetail {
                    code: String::from_str("MONITORING_ERROR"),
                    message: m,
                    details: None,
                };
                (500, detail)
            },
            AppError::External(m) => {
                let detail = ErrorDetail {
                    code: String::from_str("EXTERNAL_SERVICE_ERROR"),
                    message: m,
                    details: None,
                };
                (503, detail)
            },
            AppError::NotFound(m) => {
                let detail = ErrorDetail {
                    code: String::from_str("NOT_FOUND"),
                    message: m,
                    details: None,
                };
                (404, detail)
            },
            AppError::Internal(m) => {
                let pair = (String::from_str("error"), m);
                let detail = ErrorDetail {
                    code: String::from_str("INTERNAL_ERROR"),
                    message: String::from_str("An internal error occurred"),
                    details: Some(vec![pair]),
                };
                (500, detail)
            },
        }
    }

    /// Build a database error from the underlying error's text.
    pub fn database(msg: &str) -> (r: AppError)
        ensures
            r matches AppError::Database(m) && m@ == msg@,
    {
        AppError::Database(msg.to_owned())
    }

    /// Build a validation error.
    pub fn validation(msg: &str) -> (r: AppError)
        ensures
            r matches AppError::Validation(m) && m@ == msg@,
    {
        AppError::Validation(msg.to_owned())
    }

    /// Build an authentication error.
    pub fn auth(msg: &str) -> (r: AppError)
        ensures
            r matches AppError::Auth(m) && m@ == msg@,
    {
        AppError::Auth(msg.to_owned())
    }

    /// Build an authorization error.
    pub fn authorization(msg: &str) -> (r: AppError)
        ensures
            r matches AppError::Authorization(m) && m@ == msg@,
    {
        AppError::Authorization(msg.to_owned())
    }

    /// Build a not-found error.
    pub fn not_found(msg: &str) -> (r: AppError)
        ensures
            r matches AppError::NotFound(m) && m@ == msg@,
    {
        AppError::NotFound(msg.to_owned())
    }

    /// Build a task error.
    pub fn task(msg: &str) -> (r: AppError)
        ensures
            r matches AppError::Task(m) && m@ == msg@,
    {
        AppError::Task(msg.to_owned())
    }

    /// Build a monitoring error.
    pub fn monitoring(msg: &str) -> (r: AppError)
        ensures
            r matches AppError::Monitoring(m) && m@ == msg@,
    {
        AppError::Monitoring(msg.to_owned())
    }

    /// Build an external-service error.
    pub fn external(msg: &str) -> (r: AppError)
        ensures
            r matches AppError::External(m) && m@ == msg@,
    {
        AppError::External(msg.to_owned())
    }

    /// Build an internal error.
    pub fn internal(msg: &str) -> (r: AppError)
        ensures
            r matches AppError::Internal(m) && m@ == msg@,
    {
        AppError::Internal(msg.to_owned())
    }
}

impl ErrorDetail {
    /// Render the detail as `[CODE] message`.
    pub fn display_message(&self) -> (r: String)
        ensures
            r@ == seq!['['] + self.code@ + seq![']', ' '] + self.message@,
    {
        let mut s = String::new();
        proof {
            reveal_strlit("[");
            reveal_strlit("] ");
        }
        s.append("[");
        s.append(self.code.as_str());
        s.append("] ");
        s.append(self.message.as_str());
        assert(s@ =~= seq!['['] + self.code@ + seq![']', ' '] + self.message@);
        s
    }
}

} // verus!
