//! The typed failures of the subsystem.

use vstd::prelude::*;
use vstd::string::StringExecFns;
use crate::text::{decimal, owned, push_decimal};

verus! {

pub enum ApiError {
    /// No active credential: nobody has logged in.
    NotLoggedIn,
    /// No bundle was ever captured for this endpoint key.
    SignatureMissing { endpoint: String },
    /// The bundle for this endpoint key holds no request URL to replay.
    RequestUrlMissing { endpoint: String },
    /// The durable store could not be reached.
    StorageUnavailable { reason: String },
    /// The signing collaborator could not mint guest cookies.
    AgentFailed { reason: String },
    /// The signing collaborator could not sign a request.
    SignFailed { reason: String },
    /// The signing collaborator reported success but sent no cookies.
    NoCookies,
    /// A collaborator or the platform could not be reached or read; the
    /// reason is the whole text.
    Collaborator { reason: String },
    /// The remote side answered with an error status.
    Http { status: u16, body: String },
}

/// The same failures, over plain values.
pub enum ApiErrorView {
    NotLoggedIn,
    SignatureMissing { endpoint: Seq<char> },
    RequestUrlMissing { endpoint: Seq<char> },
    StorageUnavailable { reason: Seq<char> },
    AgentFailed { reason: Seq<char> },
    SignFailed { reason: Seq<char> },
    NoCookies,
    Collaborator { reason: Seq<char> },
    Http { status: u16, body: Seq<char> },
}

impl View for ApiError {
    type V = ApiErrorView;

    open spec fn view(&self) -> ApiErrorView {
        match self {
            ApiError::NotLoggedIn => ApiErrorView::NotLoggedIn,
            ApiError::SignatureMissing { endpoint } => ApiErrorView::SignatureMissing { endpoint: endpoint@ },
            ApiError::RequestUrlMissing { endpoint } => ApiErrorView::RequestUrlMissing { endpoint: endpoint@ },
            ApiError::StorageUnavailable { reason } => ApiErrorView::StorageUnavailable { reason: reason@ },
            ApiError::AgentFailed { reason } => ApiErrorView::AgentFailed { reason: reason@ },
            ApiError::SignFailed { reason } => ApiErrorView::SignFailed { reason: reason@ },
            ApiError::NoCookies => ApiErrorView::NoCookies,
            ApiError::Collaborator { reason } => ApiErrorView::Collaborator { reason: reason@ },
            ApiError::Http { status, body } => ApiErrorView::Http { status: *status, body: body@ },
        }
    }
}

pub const NOT_LOGGED_IN_MSG: &'static str = "Not logged in. Please call /api/auth/login-session first.";

pub const NO_SIGNATURE_MSG: &'static str = "No signature found for endpoint: ";

pub const NO_SIGNATURE_HINT: &'static str = ". Please login again to capture signatures.";

pub const NO_URL_MSG: &'static str = "No request_url found for endpoint: ";

pub const STORAGE_MSG: &'static str = "Storage unavailable: ";

pub const AGENT_ERROR_MSG: &'static str = "Agent error: ";

pub const SIGN_ERROR_MSG: &'static str = "Sign error: ";

pub const NO_COOKIES_MSG: &'static str = "No cookies returned";

pub const HTTP_MSG: &'static str = "API Error (";

pub const HTTP_SEP: &'static str = "): ";

/// The human-readable text of a failure.
pub open spec fn error_message(e: ApiErrorView) -> Seq<char> {
    match e {
        ApiErrorView::NotLoggedIn => NOT_LOGGED_IN_MSG@,
        ApiErrorView::SignatureMissing { endpoint } => NO_SIGNATURE_MSG@ + endpoint + NO_SIGNATURE_HINT@,
        ApiErrorView::RequestUrlMissing { endpoint } => NO_URL_MSG@ + endpoint,
        ApiErrorView::StorageUnavailable { reason } => STORAGE_MSG@ + reason,
        ApiErrorView::AgentFailed { reason } => AGENT_ERROR_MSG@ + reason,
        ApiErrorView::SignFailed { reason } => SIGN_ERROR_MSG@ + reason,
        ApiErrorView::NoCookies => NO_COOKIES_MSG@,
        ApiErrorView::Collaborator { reason } => reason,
        ApiErrorView::Http { status, body } => HTTP_MSG@ + decimal(status as nat) + HTTP_SEP@ + body,
    }
}

impl ApiError {
    /// The text shown to a caller in a failure payload.
    pub fn message(&self) -> (r: String)
        ensures
            r@ == error_message(self@),
    {
        match self {
            ApiError::NotLoggedIn => owned(NOT_LOGGED_IN_MSG),
            ApiError::SignatureMissing { endpoint } => {
                let mut s = owned(NO_SIGNATURE_MSG);
                s.append(endpoint.as_str());
                s.append(NO_SIGNATURE_HINT);
                s
            },
            ApiError::RequestUrlMissing { endpoint } => {
                let mut s = owned(NO_URL_MSG);
                s.append(endpoint.as_str());
                s
            },
            ApiError::StorageUnavailable { reason } => {
                let mut s = owned(STORAGE_MSG);
                s.append(reason.as_str());
                s
            },
            ApiError::AgentFailed { reason } => {
                let mut s = owned(AGENT_ERROR_MSG);
                s.append(reason.as_str());
                s
            },
            ApiError::SignFailed { reason } => {
                let mut s = owned(SIGN_ERROR_MSG);
                s.append(reason.as_str());
                s
            },
            ApiError::NoCookies => owned(NO_COOKIES_MSG),
            ApiError::Collaborator { reason } => reason.clone(),
            ApiError::Http { status, body } => {
                let mut s = owned(HTTP_MSG);
                push_decimal(&mut s, *status as u128);
                s.append(HTTP_SEP);
                s.append(body.as_str());
                s
            },
        }
    }
}

} // verus!
