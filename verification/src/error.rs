//! The error model shared by every operation, and the integer return codes
//! under which errors are reported to C hosts.

use vstd::prelude::*;
use vstd::string::*;
use vstd::std_specs::convert::FromSpecImpl;

verus! {

broadcast use vstd::string::group_string_axioms;

/// Machine-readable classification of a [`QrmiError`].
#[derive(Debug, Clone, Copy, PartialEq, Eq, Structural)]
pub enum QrmiErrorKind {
    EnvVarNotSet,
    ParseError,
    UnsupportedResourceType,
    UnsupportedPayload,
    UnsupportedFunction,
    TaskNotReady,
    MissingConfigKey,
    InvalidConfig,
    ResourceNotFound,
    TaskNotFound,
    AuthenticationFailed,
    InvalidInput,
    Other,
}

/// Errors returned by quantum resources and resource providers.
#[derive(Debug, Clone, PartialEq, Eq)]
pub enum QrmiError {
    /// A required environment variable was not set; holds its name.
    EnvVarNotSet(String),
    /// A value could not be parsed.
    ParseError(String),
    /// The resource type is not supported here.
    UnsupportedResourceType(String),
    /// The payload variant is not supported by this resource.
    UnsupportedPayload(String),
    /// The operation is not supported by this resource; holds its name.
    UnsupportedFunction(String),
    /// The task is not in a state that allows the requested operation.
    TaskNotReady { task_id: String, reason: String },
    /// A required key was missing from a provider's environment map.
    MissingConfigKey(String),
    /// A configuration value was invalid.
    InvalidConfig(String),
    /// The named resource does not exist.
    ResourceNotFound(String),
    /// The named task does not exist.
    TaskNotFound(String),
    /// The request's credentials were missing or rejected.
    AuthenticationFailed(String),
    /// A value was invalid.
    InvalidInput(String),
    /// Any other failure.
    Other(String),
}

/// The kind of an error.
pub open spec fn error_kind(e: QrmiError) -> QrmiErrorKind {
    match e {
        QrmiError::EnvVarNotSet(_) => QrmiErrorKind::EnvVarNotSet,
        QrmiError::ParseError(_) => QrmiErrorKind::ParseError,
        QrmiError::UnsupportedResourceType(_) => QrmiErrorKind::UnsupportedResourceType,
        QrmiError::UnsupportedPayload(_) => QrmiErrorKind::UnsupportedPayload,
        QrmiError::UnsupportedFunction(_) => QrmiErrorKind::UnsupportedFunction,
        QrmiError::TaskNotReady { .. } => QrmiErrorKind::TaskNotReady,
        QrmiError::MissingConfigKey(_) => QrmiErrorKind::MissingConfigKey,
        QrmiError::InvalidConfig(_) => QrmiErrorKind::InvalidConfig,
        QrmiError::ResourceNotFound(_) => QrmiErrorKind::ResourceNotFound,
        QrmiError::TaskNotFound(_) => QrmiErrorKind::TaskNotFound,
        QrmiError::AuthenticationFailed(_) => QrmiErrorKind::AuthenticationFailed,
        QrmiError::InvalidInput(_) => QrmiErrorKind::InvalidInput,
        QrmiError::Other(_) => QrmiErrorKind::Other,
    }
}

/// The text an error carries: its detail, or for a task that is not ready
/// the task identifier, `": "` and the reason.
pub open spec fn error_message(e: QrmiError) -> Seq<char> {
    match e {
        QrmiError::EnvVarNotSet(m) => m@,
        QrmiError::ParseError(m) => m@,
        QrmiError::UnsupportedResourceType(m) => m@,
        QrmiError::UnsupportedPayload(m) => m@,
        QrmiError::UnsupportedFunction(m) => m@,
        QrmiError::TaskNotReady { task_id, reason } => task_id@ + ": "@ + reason@,
        QrmiError::MissingConfigKey(m) => m@,
        QrmiError::InvalidConfig(m) => m@,
        QrmiError::ResourceNotFound(m) => m@,
        QrmiError::TaskNotFound(m) => m@,
        QrmiError::AuthenticationFailed(m) => m@,
        QrmiError::InvalidInput(m) => m@,
        QrmiError::Other(m) => m@,
    }
}

impl QrmiError {
    /// The machine-readable kind of this error.
    pub fn kind(&self) -> (k: QrmiErrorKind)
        ensures
            k == error_kind(*self),
    {
        match self {
            QrmiError::EnvVarNotSet(_) => QrmiErrorKind::EnvVarNotSet,
            QrmiError::ParseError(_) => QrmiErrorKind::ParseError,
            QrmiError::UnsupportedResourceType(_) => QrmiErrorKind::UnsupportedResourceType,
            QrmiError::UnsupportedPayload(_) => QrmiErrorKind::UnsupportedPayload,
            QrmiError::UnsupportedFunction(_) => QrmiErrorKind::UnsupportedFunction,
            QrmiError::TaskNotReady { .. } => QrmiErrorKind::TaskNotReady,
            QrmiError::MissingConfigKey(_) => QrmiErrorKind::MissingConfigKey,
            QrmiError::InvalidConfig(_) => QrmiErrorKind::InvalidConfig,
            QrmiError::ResourceNotFound(_) => QrmiErrorKind::ResourceNotFound,
            QrmiError::TaskNotFound(_) => QrmiErrorKind::TaskNotFound,
            QrmiError::AuthenticationFailed(_) => QrmiErrorKind::AuthenticationFailed,
            QrmiError::InvalidInput(_) => QrmiErrorKind::InvalidInput,
            QrmiError::Other(_) => QrmiErrorKind::Other,
        }
    }

    /// The text this error carries.
    pub fn message(&self) -> (m: String)
        ensures
            m@ == error_message(*self),
    {
        match self {
            QrmiError::EnvVarNotSet(m) => m.clone(),
            QrmiError::ParseError(m) => m.clone(),
            QrmiError::UnsupportedResourceType(m) => m.clone(),
            QrmiError::UnsupportedPayload(m) => m.clone(),
            QrmiError::UnsupportedFunction(m) => m.clone(),
            QrmiError::TaskNotReady { task_id, reason } => {
                let mut m = task_id.clone();
                m.append(": ");
                m.append(reason.as_str());
                m
            },
            QrmiError::MissingConfigKey(m) => m.clone(),
            QrmiError::InvalidConfig(m) => m.clone(),
            QrmiError::ResourceNotFound(m) => m.clone(),
            QrmiError::TaskNotFound(m) => m.clone(),
            QrmiError::AuthenticationFailed(m) => m.clone(),
            QrmiError::InvalidInput(m) => m.clone(),
            QrmiError::Other(m) => m.clone(),
        }
    }
}

/// Integer return codes returned to C.
#[derive(Debug, Clone, Copy, PartialEq, Eq, Structural)]
pub enum ReturnCode {
    /// Success.
    Success,
    /// Generic or uncategorized failure.
    Error,
    /// Unexpected null pointer.
    NullPointerError,
    /// A required environment variable was not set.
    EnvVarNotSetError,
    /// A configuration value could not be parsed.
    ParseError,
    /// Dynamic discovery was requested for an unsupported resource type.
    UnsupportedResourceTypeError,
    /// The requested operation is not supported by this resource.
    UnsupportedFunctionError,
    /// The payload variant is not supported by this backend.
    UnsupportedPayloadError,
    /// The task is not in a state that allows the requested operation.
    TaskNotReadyError,
    /// A required key was missing from a provider's environment variable map.
    MissingConfigKeyError,
    /// A value was invalid.
    InvalidInputError,
    /// The named resource does not exist.
    ResourceNotFoundError,
    /// The named task does not exist, or has already been removed.
    TaskNotFoundError,
    /// The request's credentials were missing or rejected.
    AuthenticationFailedError,
    /// A configuration value (or combination of values) was invalid.
    InvalidConfigError,
}

/// The integer by which C sees a return code.
pub open spec fn return_code_value(r: ReturnCode) -> i32 {
    match r {
        ReturnCode::Success => 0,
        ReturnCode::Error => 100,
        ReturnCode::NullPointerError => 101,
        ReturnCode::EnvVarNotSetError => 102,
        ReturnCode::ParseError => 103,
        ReturnCode::UnsupportedResourceTypeError => 104,
        ReturnCode::UnsupportedFunctionError => 105,
        ReturnCode::UnsupportedPayloadError => 106,
        ReturnCode::TaskNotReadyError => 107,
        ReturnCode::MissingConfigKeyError => 108,
        ReturnCode::InvalidInputError => 109,
        ReturnCode::ResourceNotFoundError => 111,
        ReturnCode::TaskNotFoundError => 112,
        ReturnCode::AuthenticationFailedError => 113,
        ReturnCode::InvalidConfigError => 114,
    }
}

/// The return code that reports an error of the given kind.
pub open spec fn return_code_of_kind(kind: QrmiErrorKind) -> ReturnCode {
    match kind {
        QrmiErrorKind::EnvVarNotSet => ReturnCode::EnvVarNotSetError,
        QrmiErrorKind::ParseError => ReturnCode::ParseError,
        QrmiErrorKind::UnsupportedResourceType => ReturnCode::UnsupportedResourceTypeError,
        QrmiErrorKind::UnsupportedPayload => ReturnCode::UnsupportedPayloadError,
        QrmiErrorKind::UnsupportedFunction => ReturnCode::UnsupportedFunctionError,
        QrmiErrorKind::TaskNotReady => ReturnCode::TaskNotReadyError,
        QrmiErrorKind::MissingConfigKey => ReturnCode::MissingConfigKeyError,
        QrmiErrorKind::InvalidConfig => ReturnCode::InvalidConfigError,
        QrmiErrorKind::ResourceNotFound => ReturnCode::ResourceNotFoundError,
        QrmiErrorKind::TaskNotFound => ReturnCode::TaskNotFoundError,
        QrmiErrorKind::AuthenticationFailed => ReturnCode::AuthenticationFailedError,
        QrmiErrorKind::InvalidInput => ReturnCode::InvalidInputError,
        QrmiErrorKind::Other => ReturnCode::Error,
    }
}

impl ReturnCode {
    /// The integer by which C sees this code.
    pub fn code(&self) -> (c: i32)
        ensures
            c == return_code_value(*self),
    {
        match self {
            ReturnCode::Success => 0,
            ReturnCode::Error => 100,
            ReturnCode::NullPointerError => 101,
            ReturnCode::EnvVarNotSetError => 102,
            ReturnCode::ParseError => 103,
            ReturnCode::UnsupportedResourceTypeError => 104,
            ReturnCode::UnsupportedFunctionError => 105,
            ReturnCode::UnsupportedPayloadError => 106,
            ReturnCode::TaskNotReadyError => 107,
            ReturnCode::MissingConfigKeyError => 108,
            ReturnCode::InvalidInputError => 109,
            ReturnCode::ResourceNotFoundError => 111,
            ReturnCode::TaskNotFoundError => 112,
            ReturnCode::AuthenticationFailedError => 113,
            ReturnCode::InvalidConfigError => 114,
        }
    }
}

impl From<QrmiErrorKind> for ReturnCode {
    fn from(kind: QrmiErrorKind) -> (r: ReturnCode) {
        match kind {
            QrmiErrorKind::EnvVarNotSet => ReturnCode::EnvVarNotSetError,
            QrmiErrorKind::ParseError => ReturnCode::ParseError,
            QrmiErrorKind::UnsupportedResourceType => ReturnCode::UnsupportedResourceTypeError,
            QrmiErrorKind::UnsupportedPayload => ReturnCode::UnsupportedPayloadError,
            QrmiErrorKind::UnsupportedFunction => ReturnCode::UnsupportedFunctionError,
            QrmiErrorKind::TaskNotReady => ReturnCode::TaskNotReadyError,
            QrmiErrorKind::MissingConfigKey => ReturnCode::MissingConfigKeyError,
            QrmiErrorKind::InvalidConfig => ReturnCode::InvalidConfigError,
            QrmiErrorKind::ResourceNotFound => ReturnCode::ResourceNotFoundError,
            QrmiErrorKind::TaskNotFound => ReturnCode::TaskNotFoundError,
            QrmiErrorKind::AuthenticationFailed => ReturnCode::AuthenticationFailedError,
            QrmiErrorKind::InvalidInput => ReturnCode::InvalidInputError,
            QrmiErrorKind::Other => ReturnCode::Error,
        }
    }
}

impl FromSpecImpl<QrmiErrorKind> for ReturnCode {
    open spec fn obeys_from_spec() -> bool {
        true
    }

    open spec fn from_spec(kind: QrmiErrorKind) -> ReturnCode {
        return_code_of_kind(kind)
    }
}

/// Distinct return codes reach C as distinct integers.
pub proof fn return_code_values_distinct(a: ReturnCode, b: ReturnCode)
    ensures
        return_code_value(a) == return_code_value(b) ==> a == b,
{
}

/// An error is never reported as success or as a null pointer, and distinct
/// kinds are reported under distinct codes.
pub proof fn error_kinds_map_to_failure_codes(k1: QrmiErrorKind, k2: QrmiErrorKind)
    ensures
        return_code_of_kind(k1) != ReturnCode::Success,
        return_code_of_kind(k1) != ReturnCode::NullPointerError,
        return_code_of_kind(k1) == return_code_of_kind(k2) ==> k1 == k2,
{
}

} // verus!
