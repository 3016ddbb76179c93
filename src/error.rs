use vstd::prelude::*;
use vstd::string::*;

verus! {

/// Retries after which an error is given up on.
pub const MAX_RETRIES: u32 = 5;

/// An error of a desktop operation: a machine-readable code, a message for the
/// user, optional details, whether retrying can help, and how often it was
/// retried.
#[derive(Debug, Clone)]
pub struct AppError {
    pub code: String,
    pub message: String,
    pub details: Option<String>,
    pub recoverable: bool,
    pub retry_count: u32,
}

impl AppError {
    /// The error has this code and message, and carries `details`.
    pub open spec fn is(&self, code: Seq<char>, message: Seq<char>, details: Option<Seq<char>>, recoverable: bool) -> bool {
        &&& self.code@ == code
        &&& self.message@ == message
        &&& match (self.details, details) {
            (Some(d), Some(e)) => d@ == e,
            (None, None) => true,
            _ => false,
        }
        &&& self.recoverable == recoverable
        &&& self.retry_count == 0
    }

    /// A fresh, recoverable error without details.
    pub fn new(code: &str, message: &str) -> (r: AppError)
        ensures
            r.is(code@, message@, None, true),
    {
        AppError {
            code: code.to_owned(),
            message: message.to_owned(),
            details: None,
            recoverable: true,
            retry_count: 0,
        }
    }

    /// The same error, with `details`.
    pub fn with_details(self, details: &str) -> (r: AppError)
        ensures
            r.details matches Some(d) && d@ == details@,
            r.code == self.code,
            r.message == self.message,
            r.recoverable == self.recoverable,
            r.retry_count == self.retry_count,
    {
        let mut e = self;
        e.details = Some(details.to_owned());
        e
    }

    /// The same error, marked non-recoverable.
    pub fn non_recoverable(self) -> (r: AppError)
        ensures
            !r.recoverable,
            r.code == self.code,
            r.message == self.message,
            r.details == self.details,
            r.retry_count == self.retry_count,
    {
        let mut e = self;
        e.recoverable = false;
        e
    }

    /// Counts one more retry.
    pub fn increment_retry(&mut self)
        requires
            old(self).retry_count < u32::MAX,
        ensures
            final(self).retry_count == old(self).retry_count + 1,
            final(self).code == old(self).code,
            final(self).message == old(self).message,
            final(self).details == old(self).details,
            final(self).recoverable == old(self).recoverable,
    {
        self.retry_count = self.retry_count + 1;
    }

    /// Whether the error has been retried `MAX_RETRIES` times or more.
    pub fn max_retries_exceeded(&self) -> (r: bool)
        ensures
            r == (self.retry_count >= MAX_RETRIES),
    {
        self.retry_count >= MAX_RETRIES
    }

    /// A file or directory at `path` does not exist.
    pub fn file_not_found(path: &str) -> (r: AppError)
        ensures
            r.is("FILE_NOT_FOUND"@, "File or directory not found"@, Some(path@), false),
    {
        AppError::new("FILE_NOT_FOUND", "File or directory not found").with_details(path).non_recoverable()
    }

    /// Reading the file at `path` failed with `error`.
    pub fn file_read_error(path: &str, error: &str) -> (r: AppError)
        ensures
            r.is("FILE_READ_ERROR"@, "Failed to read file"@, Some(path@ + ": "@ + error@), true),
    {
        let details = String::from_str(path).concat(": ").concat(error);
        AppError::new("FILE_READ_ERROR", "Failed to read file").with_details(details.as_str())
    }

    pub fn network_error(error: &str) -> (r: AppError)
        ensures
            r.is("NETWORK_ERROR"@, "Network connection failed"@, Some(error@), true),
    {
        AppError::new("NETWORK_ERROR", "Network connection failed").with_details(error)
    }

    pub fn timeout_error() -> (r: AppError)
        ensures
            r.is("TIMEOUT"@, "Operation timed out"@, None, true),
    {
        AppError::new("TIMEOUT", "Operation timed out")
    }

    pub fn auth_error(error: &str) -> (r: AppError)
        ensures
            r.is("AUTH_ERROR"@, "Authentication failed"@, Some(error@), false),
    {
        AppError::new("AUTH_ERROR", "Authentication failed").with_details(error).non_recoverable()
    }

    pub fn database_error(error: &str) -> (r: AppError)
        ensures
            r.is("DATABASE_ERROR"@, "Database operation failed"@, Some(error@), true),
    {
        AppError::new("DATABASE_ERROR", "Database operation failed").with_details(error)
    }

    pub fn quest_not_found(quest_id: &str) -> (r: AppError)
        ensures
            r.is("QUEST_NOT_FOUND"@, "Quest not found in database"@, Some(quest_id@), false),
    {
        AppError::new("QUEST_NOT_FOUND", "Quest not found in database").with_details(quest_id).non_recoverable()
    }

    pub fn rate_limited() -> (r: AppError)
        ensures
            r.is("RATE_LIMITED"@, "API rate limit exceeded, please try again later"@, None, true),
    {
        AppError::new("RATE_LIMITED", "API rate limit exceeded, please try again later")
    }

    pub fn invalid_config(field: &str) -> (r: AppError)
        ensures
            r.is("INVALID_CONFIG"@, "Invalid configuration"@, Some(field@), false),
    {
        AppError::new("INVALID_CONFIG", "Invalid configuration").with_details(field).non_recoverable()
    }
}

/// Result of a desktop operation.
pub type AppResult<T> = Result<T, AppError>;

} // verus!
