//! Errors that the host reports to its callers.

use vstd::prelude::*;

verus! {

/// The part of the host that an error comes from.
#[derive(Clone, Copy, Debug, PartialEq, Eq, PartialOrd, Ord, Hash, Structural)]
pub enum ScErrorType {
    Contract,
    WasmVm,
    Context,
    Storage,
    Object,
    Crypto,
    Events,
    Budget,
    Value,
    Auth,
}

/// What went wrong.
#[derive(Clone, Copy, Debug, PartialEq, Eq, PartialOrd, Ord, Hash, Structural)]
pub enum ScErrorCode {
    ArithDomain,
    IndexBounds,
    InvalidInput,
    MissingValue,
    ExistingValue,
    ExceededLimit,
    InvalidAction,
    InternalError,
    UnexpectedType,
    UnexpectedSize,
}

/// An error of the host: where it comes from and what went wrong.
#[derive(Clone, Copy, Debug, PartialEq, Eq, PartialOrd, Ord, Hash, Structural)]
pub struct HostError {
    pub error_type: ScErrorType,
    pub code: ScErrorCode,
}

impl HostError {
    /// A cost model with a negative term: it cannot be evaluated.
    pub open spec fn invalid_model() -> HostError {
        HostError { error_type: ScErrorType::Context, code: ScErrorCode::InvalidInput }
    }

    /// More of a resource was used than its limit allows.
    pub open spec fn over_budget() -> HostError {
        HostError { error_type: ScErrorType::Budget, code: ScErrorCode::ExceededLimit }
    }

    /// A charge came with an input where its kind has none, or without one where
    /// its kind has one.
    pub open spec fn input_mismatch() -> HostError {
        HostError { error_type: ScErrorType::Context, code: ScErrorCode::InternalError }
    }
}

impl From<(ScErrorType, ScErrorCode)> for HostError {
    fn from(parts: (ScErrorType, ScErrorCode)) -> (error: HostError) {
        HostError { error_type: parts.0, code: parts.1 }
    }
}

impl vstd::std_specs::convert::FromSpecImpl<(ScErrorType, ScErrorCode)> for HostError {
    open spec fn obeys_from_spec() -> bool {
        true
    }

    open spec fn from_spec(parts: (ScErrorType, ScErrorCode)) -> HostError {
        HostError { error_type: parts.0, code: parts.1 }
    }
}

/// An error made from its two parts has these parts.
pub proof fn law_error_keeps_its_parts(parts: (ScErrorType, ScErrorCode))
    ensures
        <HostError as vstd::std_specs::convert::FromSpec<
            (ScErrorType, ScErrorCode),
        >>::obeys_from_spec(),
        <HostError as vstd::std_specs::convert::FromSpec<
            (ScErrorType, ScErrorCode),
        >>::from_spec(parts).error_type == parts.0,
        <HostError as vstd::std_specs::convert::FromSpec<
            (ScErrorType, ScErrorCode),
        >>::from_spec(parts).code == parts.1,
        HostError::invalid_model().error_type is Context,
        HostError::invalid_model().code is InvalidInput,
        HostError::over_budget().error_type is Budget,
        HostError::over_budget().code is ExceededLimit,
        HostError::input_mismatch().error_type is Context,
        HostError::input_mismatch().code is InternalError,
{
}

} // verus!
