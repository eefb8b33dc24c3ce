//! Outcomes of running the validation engine or a store-backed query.
//!
//! A validation verdict is a value, never thrown control flow: rejection is
//! an expected, frequent and cheap outcome.  A hard error is reserved for a
//! store that cannot answer yet (a missing dependency) or answers with a
//! shape that cannot be decoded.

use vstd::prelude::*;

use crate::hash::ActionHash;

verus! {

/// The validation engine's verdict on one operation.
#[derive(Debug, PartialEq)]
pub enum ValidateCallbackResult {
    Valid,
    /// Rejected, with a human-readable reason for the submitting peer.
    Invalid(String),
}

/// A verdict, with the reason as a character sequence; the mathematical
/// counterpart of [`ValidateCallbackResult`].
pub enum VerdictView {
    Valid,
    Invalid(Seq<char>),
}

impl View for ValidateCallbackResult {
    type V = VerdictView;

    open spec fn view(&self) -> VerdictView {
        match self {
            ValidateCallbackResult::Valid => VerdictView::Valid,
            ValidateCallbackResult::Invalid(reason) => VerdictView::Invalid(reason@),
        }
    }
}

/// A hard failure of a store-backed call, distinct from a rejection and
/// from plain absence.
#[derive(Clone, Copy, Debug, PartialEq)]
pub enum ExternError {
    /// A referenced record is not visible to this peer yet.
    MissingDependency(ActionHash),
    /// A link target that must be an action address is not one.
    LinkTargetNotActionHash,
    /// The store answered a record request with a non-record detail shape.
    MalformedDetails,
    /// The addressed record does not exist.
    NotFound,
}

impl ExternError {
    /// The failure as a human-readable message.
    pub fn message(&self) -> (r: String)
        ensures
            match self {
                ExternError::MissingDependency(_) => r@ == "Dependency not held"@,
                ExternError::LinkTargetNotActionHash => r@
                    == "No action hash associated with link"@,
                ExternError::MalformedDetails => r@ == "Malformed get details response"@,
                ExternError::NotFound => r@ == "Record not found"@,
            },
    {
        match self {
            ExternError::MissingDependency(_) => "Dependency not held".to_owned(),
            ExternError::LinkTargetNotActionHash => "No action hash associated with link".to_owned(
            ),
            ExternError::MalformedDetails => "Malformed get details response".to_owned(),
            ExternError::NotFound => "Record not found".to_owned(),
        }
    }
}

/// The outcome of a validation callback, with the verdict as its view.
pub open spec fn result_view(r: Result<ValidateCallbackResult, ExternError>) -> Result<
    VerdictView,
    ExternError,
> {
    match r {
        Ok(v) => Ok(v@),
        Err(e) => Err(e),
    }
}

} // verus!
