//! The error kinds the library distinguishes.
//!
//! Fatal kinds abort a whole synchronization run; per-repository kinds are
//! caught at the item boundary and turned into "no config" outcomes.
use vstd::prelude::*;

verus! {

/// Every failure the library reports.
#[derive(Debug, Clone)]
pub enum AppError {
    /// The requested resource does not exist.  Recoverable per repository.
    NotFound,
    /// The project asks to be left out of all downstream output.
    IgnoredProject,
    /// A failure nothing more is known about.
    Unknown,
    /// A scheduled task failed outright, such as the exclusion list fetch.
    /// Fatal for the run.
    TaskError(String),
    /// The remote gateway failed for a reason other than not-found.
    GitHubError(String),
    /// A gateway response could not be read in the expected shape.
    ParseConfigError(String),
    /// A config file was present but could not be resolved; carries the
    /// reason.  Recoverable per repository.
    ResolveConfigError(String),
    /// The store refused a read or a write.
    SqlxError(String),
}

/// Mathematical image of [`AppError`].
pub enum AppErrView {
    NotFound,
    IgnoredProject,
    Unknown,
    TaskError(Seq<char>),
    GitHubError(Seq<char>),
    ParseConfigError(Seq<char>),
    ResolveConfigError(Seq<char>),
    SqlxError(Seq<char>),
}

impl View for AppError {
    type V = AppErrView;

    open spec fn view(&self) -> AppErrView {
        match self {
            AppError::NotFound => AppErrView::NotFound,
            AppError::IgnoredProject => AppErrView::IgnoredProject,
            AppError::Unknown => AppErrView::Unknown,
            AppError::TaskError(m) => AppErrView::TaskError(m@),
            AppError::GitHubError(m) => AppErrView::GitHubError(m@),
            AppError::ParseConfigError(m) => AppErrView::ParseConfigError(m@),
            AppError::ResolveConfigError(m) => AppErrView::ResolveConfigError(m@),
            AppError::SqlxError(m) => AppErrView::SqlxError(m@),
        }
    }
}

impl DeepView for AppError {
    type V = AppErrView;

    open spec fn deep_view(&self) -> AppErrView {
        self.view()
    }
}

/// The text each error renders as.
pub open spec fn s_error_message(e: AppErrView) -> Seq<char> {
    match e {
        AppErrView::NotFound => "Not found"@,
        AppErrView::IgnoredProject => "Ignored project"@,
        AppErrView::Unknown => "unknown error"@,
        AppErrView::TaskError(m) => "Task error: "@ + m,
        AppErrView::GitHubError(m) => "GitHub error: "@ + m,
        AppErrView::ParseConfigError(m) => "parse config error: "@ + m,
        AppErrView::ResolveConfigError(m) => "config error: "@ + m,
        AppErrView::SqlxError(m) => "SQLx error: "@ + m,
    }
}

/// The HTTP status each error maps to for clients: not-found and a policy
/// rejection are distinguishable; everything else is a generic internal
/// error.
pub open spec fn s_status_code(e: AppErrView) -> u16 {
    match e {
        AppErrView::NotFound => 404u16,
        AppErrView::IgnoredProject => 403u16,
        _ => 500u16,
    }
}

impl AppError {
    /// A human-readable account of the error.
    pub fn message(&self) -> (r: String)
        ensures
            r@ == s_error_message(self@),
    {
        match self {
            AppError::NotFound => String::from_str("Not found"),
            AppError::IgnoredProject => String::from_str("Ignored project"),
            AppError::Unknown => String::from_str("unknown error"),
            AppError::TaskError(m) => {
                let mut r = String::from_str("Task error: ");
                r.append(m.as_str());
                r
            },
            AppError::GitHubError(m) => {
                let mut r = String::from_str("GitHub error: ");
                r.append(m.as_str());
                r
            },
            AppError::ParseConfigError(m) => {
                let mut r = String::from_str("parse config error: ");
                r.append(m.as_str());
                r
            },
            AppError::ResolveConfigError(m) => {
                let mut r = String::from_str("config error: ");
                r.append(m.as_str());
                r
            },
            AppError::SqlxError(m) => {
                let mut r = String::from_str("SQLx error: ");
                r.append(m.as_str());
                r
            },
        }
    }

    /// The HTTP status this error maps to for clients.
    pub fn status_code(&self) -> (r: u16)
        ensures
            r == s_status_code(self@),
    {
        match self {
            AppError::NotFound => 404,
            AppError::IgnoredProject => 403,
            _ => 500,
        }
    }
}

} // verus!
