use vstd::prelude::*;
use vstd::string::StringExecFns;

verus! {

/// Errors surfaced to the UI. Each variant renders to a fixed message.
#[derive(Debug, Clone, PartialEq, Eq)]
pub enum AppError {
    /// An I/O failure, carrying the rendered OS error.
    Io(String),
    ScopeDenied(String),
    PrivilegedUnavailable,
    PathNotAllowed(String),
    NotImplemented,
    /// A scan or delete request that could not be started.
    Scan(String),
    /// A failure reported by the index database.
    Sqlite(String),
    ScanAlreadyRunning,
}

pub type AppResult<T> = Result<T, AppError>;

/// The user-facing text of an error.
pub open spec fn error_text(e: AppError) -> Seq<char> {
    match e {
        AppError::Io(s) => "io error: "@ + s@,
        AppError::ScopeDenied(s) => "scope denied: "@ + s@,
        AppError::PrivilegedUnavailable => "privileged operation requires direct-download build"@,
        AppError::PathNotAllowed(s) => "path not allowed: "@ + s@,
        AppError::NotImplemented => "not implemented yet"@,
        AppError::Scan(s) => "scan error: "@ + s@,
        AppError::Sqlite(s) => "sqlite error: "@ + s@,
        AppError::ScanAlreadyRunning => "a scan is already running"@,
    }
}

impl AppError {
    /// Renders the error the way it is shown (and serialized) to the UI.
    pub fn message(&self) -> (text: String)
        ensures
            text@ == error_text(*self),
    {
        match self {
            AppError::Io(s) => String::from_str("io error: ").concat(s.as_str()),
            AppError::ScopeDenied(s) => String::from_str("scope denied: ").concat(s.as_str()),
            AppError::PrivilegedUnavailable => String::from_str(
                "privileged operation requires direct-download build",
            ),
            AppError::PathNotAllowed(s) => String::from_str("path not allowed: ").concat(
                s.as_str(),
            ),
            AppError::NotImplemented => String::from_str("not implemented yet"),
            AppError::Scan(s) => String::from_str("scan error: ").concat(s.as_str()),
            AppError::Sqlite(s) => String::from_str("sqlite error: ").concat(s.as_str()),
            AppError::ScanAlreadyRunning => String::from_str("a scan is already running"),
        }
    }
}

} // verus!
