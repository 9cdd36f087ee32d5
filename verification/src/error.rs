//! The failures that the store reports, and how each is shown to a caller.

use vstd::prelude::*;
use vstd::string::*;

verus! {

/// What is said when an unsubscribe finds nothing to delete.
pub const NO_SUBSCRIPTION_FOUND: &'static str = "No subscription found";

/// What is said when a read or an update finds no subscription.
pub const SUBSCRIPTION_NOT_FOUND: &'static str = "Subscription not found";

/// What is said when stored preferences cannot be read back.
pub const INVALID_PREFERENCES_FORMAT: &'static str = "Invalid preferences format";

/// A failure of a store operation.
#[derive(Debug, Clone, PartialEq, Eq)]
pub enum ApiError {
    /// The storage backend failed; the text is its own report.
    Database(String),
    /// The request cannot be served as it stands: it is malformed, or the
    /// subscription it names does not exist.
    InvalidRequest(String),
    /// Stored preferences are not in their stored form: the store disagrees
    /// with itself, which no caller's input can cause.
    CorruptData(String),
}

/// The three classes of failure.
#[derive(Debug, Clone, Copy, PartialEq, Eq, Structural, Hash)]
pub enum ErrorKind {
    RequestValidation,
    Storage,
    CorruptData,
}

/// An [`ApiError`] as mathematical values.
pub enum ApiErrorView {
    Database(Seq<char>),
    InvalidRequest(Seq<char>),
    CorruptData(Seq<char>),
}

impl View for ApiError {
    type V = ApiErrorView;

    open spec fn view(&self) -> ApiErrorView {
        match self {
            ApiError::Database(m) => ApiErrorView::Database(m@),
            ApiError::InvalidRequest(m) => ApiErrorView::InvalidRequest(m@),
            ApiError::CorruptData(m) => ApiErrorView::CorruptData(m@),
        }
    }
}

impl ApiErrorView {
    /// The class this failure belongs to.
    pub open spec fn kind(self) -> ErrorKind {
        match self {
            ApiErrorView::Database(_) => ErrorKind::Storage,
            ApiErrorView::InvalidRequest(_) => ErrorKind::RequestValidation,
            ApiErrorView::CorruptData(_) => ErrorKind::CorruptData,
        }
    }

    /// Whether this failure says that the subscription named does not exist.
    pub open spec fn is_not_found(self) -> bool {
        self == ApiErrorView::InvalidRequest(NO_SUBSCRIPTION_FOUND@) || self
            == ApiErrorView::InvalidRequest(SUBSCRIPTION_NOT_FOUND@)
    }

    /// The status under which this failure is answered: 500 for a failure of
    /// the backend, 400 for every other.
    pub open spec fn status_code(self) -> u16 {
        match self {
            ApiErrorView::Database(_) => 500,
            ApiErrorView::InvalidRequest(_) => 400,
            ApiErrorView::CorruptData(_) => 400,
        }
    }

    /// The sentence shown to the caller.
    pub open spec fn message(self) -> Seq<char> {
        match self {
            ApiErrorView::Database(m) => "Database error: "@ + m,
            ApiErrorView::InvalidRequest(m) => "Invalid request: "@ + m,
            ApiErrorView::CorruptData(m) => "Invalid request: "@ + m,
        }
    }
}

impl ApiError {
    /// The class this failure belongs to.
    pub fn kind(&self) -> (k: ErrorKind)
        ensures
            k == self@.kind(),
    {
        match self {
            ApiError::Database(_) => ErrorKind::Storage,
            ApiError::InvalidRequest(_) => ErrorKind::RequestValidation,
            ApiError::CorruptData(_) => ErrorKind::CorruptData,
        }
    }

    /// Whether this failure says that the subscription named does not exist.
    pub fn is_not_found(&self) -> (b: bool)
        ensures
            b == self@.is_not_found(),
    {
        match self {
            ApiError::InvalidRequest(m) => {
                *m == String::from_str(NO_SUBSCRIPTION_FOUND) || *m == String::from_str(
                    SUBSCRIPTION_NOT_FOUND,
                )
            },
            _ => false,
        }
    }

    /// The status under which this failure is answered.
    pub fn status_code(&self) -> (code: u16)
        ensures
            code == self@.status_code(),
    {
        match self {
            ApiError::Database(_) => 500,
            ApiError::InvalidRequest(_) => 400,
            ApiError::CorruptData(_) => 400,
        }
    }

    /// The sentence shown to the caller.
    pub fn message(&self) -> (text: String)
        ensures
            text@ == self@.message(),
    {
        match self {
            ApiError::Database(m) => String::from_str("Database error: ").concat(m.as_str()),
            ApiError::InvalidRequest(m) => String::from_str("Invalid request: ").concat(
                m.as_str(),
            ),
            ApiError::CorruptData(m) => String::from_str("Invalid request: ").concat(m.as_str()),
        }
    }
}

} // verus!
