//! The failures that the backend reports to its callers.

use vstd::prelude::*;
use vstd::string::StringExecFns;

verus! {

/// Why a backend operation failed.
#[derive(Debug, PartialEq, Eq)]
pub enum ApiError {
    /// Registration named a username that is already taken.
    AlreadyExists,
    /// The upstream call failed, or its answer had no reply in it; the text
    /// says what went wrong.
    UpstreamError(String),
    /// The model is served by a provider that chat completion cannot reach.
    UnsupportedProvider,
}

/// The mathematical value of an [`ApiError`].
pub enum ApiErrorView {
    AlreadyExists,
    UpstreamError(Seq<char>),
    UnsupportedProvider,
}

impl ApiErrorView {
    /// The text shown to a caller for this failure.
    pub open spec fn message(self) -> Seq<char> {
        match self {
            ApiErrorView::AlreadyExists => "User already exists"@,
            ApiErrorView::UpstreamError(text) => text,
            ApiErrorView::UnsupportedProvider => "unknown provider"@,
        }
    }
}

impl View for ApiError {
    type V = ApiErrorView;

    open spec fn view(&self) -> ApiErrorView {
        match self {
            ApiError::AlreadyExists => ApiErrorView::AlreadyExists,
            ApiError::UpstreamError(text) => ApiErrorView::UpstreamError(text@),
            ApiError::UnsupportedProvider => ApiErrorView::UnsupportedProvider,
        }
    }
}

impl ApiError {
    /// The text shown to a caller for this failure. An upstream failure is
    /// passed on word for word.
    pub fn message(&self) -> (text: String)
        ensures
            text@ == self@.message(),
    {
        match self {
            ApiError::AlreadyExists => String::from_str("User already exists"),
            ApiError::UpstreamError(text) => text.clone(),
            ApiError::UnsupportedProvider => String::from_str("unknown provider"),
        }
    }
}

} // verus!
