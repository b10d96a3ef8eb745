//! What a caller of the service is told when a request fails.

use crate::backend::BackendError;
use crate::pool_model::PoolError;
use vstd::prelude::*;
use vstd::string::StringExecFns;

verus! {

/// The message of every failure that stems from the pool or the backend.
/// Which of them failed, and how, is not passed on.
pub const UNAVAILABLE_MESSAGE: &'static str = "redis error";

/// The kind of a failed request, as the caller sees it.
#[derive(Clone, Copy, Debug, PartialEq, Eq, Structural)]
pub enum ErrorCode {
    /// The pool or the backend could not serve the request; it may be
    /// tried again later.
    BackendUnavailable,
    /// The request itself is at fault.
    InvalidArgument,
}

/// A failed request, as the caller sees it.
#[derive(Clone, Debug, PartialEq, Eq)]
pub struct ServiceError {
    pub code: ErrorCode,
    pub message: String,
}

/// A failed request as a plain value.
pub struct ServiceErrorView {
    pub code: ErrorCode,
    pub message: Seq<char>,
}

impl View for ServiceError {
    type V = ServiceErrorView;

    open spec fn view(&self) -> ServiceErrorView {
        ServiceErrorView { code: self.code, message: self.message@ }
    }
}

/// What went wrong inside the service.
#[derive(Clone, Copy, Debug, PartialEq, Eq, Structural)]
pub enum Failure {
    /// The pool gave no connection.
    Pool(PoolError),
    /// The operation on the backend failed.
    Backend(BackendError),
}

/// The one error that every failure inside the service is reported as.
pub open spec fn unavailable_view() -> ServiceErrorView {
    ServiceErrorView { code: ErrorCode::BackendUnavailable, message: UNAVAILABLE_MESSAGE@ }
}

/// The error that the caller is given for `failure`: always
/// `BackendUnavailable`, with the same message whatever failed.
pub fn unavailable(failure: Failure) -> (error: ServiceError)
    ensures
        error@ == unavailable_view(),
{
    ServiceError {
        code: ErrorCode::BackendUnavailable,
        message: String::from_str(UNAVAILABLE_MESSAGE),
    }
}

} // verus!
