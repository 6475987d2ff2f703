//! The Python exception hierarchy and the routing of SDK failures onto it.
//!
//! Every SDK failure raises exactly one leaf class; the leaf set is the same
//! vocabulary as the C ABI discriminants, so a failure lands on the same
//! conceptual class in every binding.

use vstd::prelude::*;
use crate::codes::{
    THETADATADX_ERR_AUTHENTICATION, THETADATADX_ERR_CONFIG, THETADATADX_ERR_DEADLINE_EXCEEDED,
    THETADATADX_ERR_INVALID_CREDENTIALS, THETADATADX_ERR_INVALID_PARAMETER,
    THETADATADX_ERR_NETWORK, THETADATADX_ERR_NOT_FOUND, THETADATADX_ERR_OTHER,
    THETADATADX_ERR_RATE_LIMIT, THETADATADX_ERR_SCHEMA_MISMATCH, THETADATADX_ERR_STREAM,
    THETADATADX_ERR_SUBSCRIPTION, THETADATADX_ERR_UNAVAILABLE,
};
use crate::sdk_error::{
    spec_error_code, spec_is_invalid_parameter, is_invalid_parameter, AuthErrorKind,
    GrpcStatusKind, SdkError, SdkErrorKind, StreamErrorKind,
};

verus! {

/// The branded Python exception classes.
#[derive(Clone, Copy, Debug, PartialEq, Eq, Structural)]
pub enum PyErrorClass {
    /// Root of the hierarchy.
    ThetaDataError,
    AuthenticationError,
    InvalidCredentialsError,
    SubscriptionError,
    RateLimitError,
    InvalidParameterError,
    SchemaMismatchError,
    NetworkError,
    UnavailableError,
    DeadlineExceededError,
    NotFoundError,
    StreamError,
    ConfigError,
}

/// The class each SDK failure raises.
pub open spec fn spec_py_error_class(kind: SdkErrorKind) -> PyErrorClass {
    match kind {
        SdkErrorKind::Auth(k) => match k {
            AuthErrorKind::InvalidCredentials => PyErrorClass::InvalidCredentialsError,
            AuthErrorKind::NetworkError => PyErrorClass::NetworkError,
            AuthErrorKind::Timeout => PyErrorClass::DeadlineExceededError,
            _ => PyErrorClass::AuthenticationError,
        },
        SdkErrorKind::Grpc(k) => match k {
            GrpcStatusKind::PermissionDenied => PyErrorClass::SubscriptionError,
            GrpcStatusKind::ResourceExhausted => PyErrorClass::RateLimitError,
            GrpcStatusKind::NotFound => PyErrorClass::NotFoundError,
            GrpcStatusKind::DeadlineExceeded => PyErrorClass::DeadlineExceededError,
            GrpcStatusKind::Unauthenticated => PyErrorClass::AuthenticationError,
            GrpcStatusKind::Unavailable => PyErrorClass::UnavailableError,
            GrpcStatusKind::Other => PyErrorClass::ThetaDataError,
        },
        SdkErrorKind::NoData => PyErrorClass::NotFoundError,
        SdkErrorKind::Timeout => PyErrorClass::DeadlineExceededError,
        SdkErrorKind::Transport | SdkErrorKind::Tls | SdkErrorKind::Io
            | SdkErrorKind::Http => PyErrorClass::NetworkError,
        SdkErrorKind::Decode | SdkErrorKind::Decompress => PyErrorClass::SchemaMismatchError,
        SdkErrorKind::Config(k) => if spec_is_invalid_parameter(k) {
            PyErrorClass::InvalidParameterError
        } else {
            PyErrorClass::ConfigError
        },
        SdkErrorKind::Stream(k) => match k {
            StreamErrorKind::TooManyRequests => PyErrorClass::RateLimitError,
            StreamErrorKind::Timeout => PyErrorClass::DeadlineExceededError,
            StreamErrorKind::ConnectionRefused
                | StreamErrorKind::Disconnected => PyErrorClass::NetworkError,
            _ => PyErrorClass::StreamError,
        },
        SdkErrorKind::FlatFilesUnavailable | SdkErrorKind::PartialReconnect
            | SdkErrorKind::PartialShardFetch => PyErrorClass::StreamError,
        SdkErrorKind::Other => PyErrorClass::ThetaDataError,
    }
}

/// Pick the Python exception class for an SDK failure.
pub fn py_error_class_for(kind: &SdkErrorKind) -> (c: PyErrorClass)
    ensures
        c == spec_py_error_class(*kind),
{
    match kind {
        SdkErrorKind::Auth(k) => match k {
            AuthErrorKind::InvalidCredentials => PyErrorClass::InvalidCredentialsError,
            AuthErrorKind::NetworkError => PyErrorClass::NetworkError,
            AuthErrorKind::Timeout => PyErrorClass::DeadlineExceededError,
            _ => PyErrorClass::AuthenticationError,
        },
        SdkErrorKind::Grpc(k) => match k {
            GrpcStatusKind::PermissionDenied => PyErrorClass::SubscriptionError,
            GrpcStatusKind::ResourceExhausted => PyErrorClass::RateLimitError,
            GrpcStatusKind::NotFound => PyErrorClass::NotFoundError,
            GrpcStatusKind::DeadlineExceeded => PyErrorClass::DeadlineExceededError,
            GrpcStatusKind::Unauthenticated => PyErrorClass::AuthenticationError,
            GrpcStatusKind::Unavailable => PyErrorClass::UnavailableError,
            GrpcStatusKind::Other => PyErrorClass::ThetaDataError,
        },
        SdkErrorKind::NoData => PyErrorClass::NotFoundError,
        SdkErrorKind::Timeout => PyErrorClass::DeadlineExceededError,
        SdkErrorKind::Transport | SdkErrorKind::Tls | SdkErrorKind::Io
            | SdkErrorKind::Http => PyErrorClass::NetworkError,
        SdkErrorKind::Decode | SdkErrorKind::Decompress => PyErrorClass::SchemaMismatchError,
        SdkErrorKind::Config(k) => if is_invalid_parameter(*k) {
            PyErrorClass::InvalidParameterError
        } else {
            PyErrorClass::ConfigError
        },
        SdkErrorKind::Stream(k) => match k {
            StreamErrorKind::TooManyRequests => PyErrorClass::RateLimitError,
            StreamErrorKind::Timeout => PyErrorClass::DeadlineExceededError,
            StreamErrorKind::ConnectionRefused
                | StreamErrorKind::Disconnected => PyErrorClass::NetworkError,
            _ => PyErrorClass::StreamError,
        },
        SdkErrorKind::FlatFilesUnavailable | SdkErrorKind::PartialReconnect
            | SdkErrorKind::PartialShardFetch => PyErrorClass::StreamError,
        SdkErrorKind::Other => PyErrorClass::ThetaDataError,
    }
}

/// The C ABI discriminant that names the same conceptual class; the root
/// class corresponds to the uncategorized code.
pub open spec fn spec_code_of_class(c: PyErrorClass) -> i32 {
    match c {
        PyErrorClass::ThetaDataError => THETADATADX_ERR_OTHER,
        PyErrorClass::AuthenticationError => THETADATADX_ERR_AUTHENTICATION,
        PyErrorClass::InvalidCredentialsError => THETADATADX_ERR_INVALID_CREDENTIALS,
        PyErrorClass::SubscriptionError => THETADATADX_ERR_SUBSCRIPTION,
        PyErrorClass::RateLimitError => THETADATADX_ERR_RATE_LIMIT,
        PyErrorClass::InvalidParameterError => THETADATADX_ERR_INVALID_PARAMETER,
        PyErrorClass::SchemaMismatchError => THETADATADX_ERR_SCHEMA_MISMATCH,
        PyErrorClass::NetworkError => THETADATADX_ERR_NETWORK,
        PyErrorClass::UnavailableError => THETADATADX_ERR_UNAVAILABLE,
        PyErrorClass::DeadlineExceededError => THETADATADX_ERR_DEADLINE_EXCEEDED,
        PyErrorClass::NotFoundError => THETADATADX_ERR_NOT_FOUND,
        PyErrorClass::StreamError => THETADATADX_ERR_STREAM,
        PyErrorClass::ConfigError => THETADATADX_ERR_CONFIG,
    }
}

/// The C ABI discriminant of a Python exception class.
pub fn code_of_class(c: PyErrorClass) -> (code: i32)
    ensures
        code == spec_code_of_class(c),
{
    match c {
        PyErrorClass::ThetaDataError => THETADATADX_ERR_OTHER,
        PyErrorClass::AuthenticationError => THETADATADX_ERR_AUTHENTICATION,
        PyErrorClass::InvalidCredentialsError => THETADATADX_ERR_INVALID_CREDENTIALS,
        PyErrorClass::SubscriptionError => THETADATADX_ERR_SUBSCRIPTION,
        PyErrorClass::RateLimitError => THETADATADX_ERR_RATE_LIMIT,
        PyErrorClass::InvalidParameterError => THETADATADX_ERR_INVALID_PARAMETER,
        PyErrorClass::SchemaMismatchError => THETADATADX_ERR_SCHEMA_MISMATCH,
        PyErrorClass::NetworkError => THETADATADX_ERR_NETWORK,
        PyErrorClass::UnavailableError => THETADATADX_ERR_UNAVAILABLE,
        PyErrorClass::DeadlineExceededError => THETADATADX_ERR_DEADLINE_EXCEEDED,
        PyErrorClass::NotFoundError => THETADATADX_ERR_NOT_FOUND,
        PyErrorClass::StreamError => THETADATADX_ERR_STREAM,
        PyErrorClass::ConfigError => THETADATADX_ERR_CONFIG,
    }
}

/// The Python class name of each exception class.
pub open spec fn spec_class_name(c: PyErrorClass) -> Seq<char> {
    match c {
        PyErrorClass::ThetaDataError => "ThetaDataError"@,
        PyErrorClass::AuthenticationError => "AuthenticationError"@,
        PyErrorClass::InvalidCredentialsError => "InvalidCredentialsError"@,
        PyErrorClass::SubscriptionError => "SubscriptionError"@,
        PyErrorClass::RateLimitError => "RateLimitError"@,
        PyErrorClass::InvalidParameterError => "InvalidParameterError"@,
        PyErrorClass::SchemaMismatchError => "SchemaMismatchError"@,
        PyErrorClass::NetworkError => "NetworkError"@,
        PyErrorClass::UnavailableError => "UnavailableError"@,
        PyErrorClass::DeadlineExceededError => "DeadlineExceededError"@,
        PyErrorClass::NotFoundError => "NotFoundError"@,
        PyErrorClass::StreamError => "StreamError"@,
        PyErrorClass::ConfigError => "ConfigError"@,
    }
}

/// The name a class is registered under on the Python module.
pub fn class_name(c: PyErrorClass) -> (name: &'static str)
    ensures
        name@ == spec_class_name(c),
{
    match c {
        PyErrorClass::ThetaDataError => "ThetaDataError",
        PyErrorClass::AuthenticationError => "AuthenticationError",
        PyErrorClass::InvalidCredentialsError => "InvalidCredentialsError",
        PyErrorClass::SubscriptionError => "SubscriptionError",
        PyErrorClass::RateLimitError => "RateLimitError",
        PyErrorClass::InvalidParameterError => "InvalidParameterError",
        PyErrorClass::SchemaMismatchError => "SchemaMismatchError",
        PyErrorClass::NetworkError => "NetworkError",
        PyErrorClass::UnavailableError => "UnavailableError",
        PyErrorClass::DeadlineExceededError => "DeadlineExceededError",
        PyErrorClass::NotFoundError => "NotFoundError",
        PyErrorClass::StreamError => "StreamError",
        PyErrorClass::ConfigError => "ConfigError",
    }
}

/// The branded base class each class derives from: none for the root,
/// `AuthenticationError` for `InvalidCredentialsError`, the root otherwise.
pub open spec fn spec_parent_class(c: PyErrorClass) -> Option<PyErrorClass> {
    match c {
        PyErrorClass::ThetaDataError => None,
        PyErrorClass::InvalidCredentialsError => Some(PyErrorClass::AuthenticationError),
        _ => Some(PyErrorClass::ThetaDataError),
    }
}

/// The branded base class of an exception class.
pub fn parent_class(c: PyErrorClass) -> (p: Option<PyErrorClass>)
    ensures
        p == spec_parent_class(c),
{
    match c {
        PyErrorClass::ThetaDataError => None,
        PyErrorClass::InvalidCredentialsError => Some(PyErrorClass::AuthenticationError),
        _ => Some(PyErrorClass::ThetaDataError),
    }
}

/// Whether a class also derives from Python's built-in `ValueError`, so
/// existing `except ValueError` handlers keep catching it.
pub fn also_value_error(c: PyErrorClass) -> (r: bool)
    ensures
        r == (c == PyErrorClass::InvalidParameterError),
{
    match c {
        PyErrorClass::InvalidParameterError => true,
        _ => false,
    }
}

/// `sub` derives (directly or through a chain of bases) from `sup`; every
/// class derives from itself.
pub open spec fn is_subclass(sub: PyErrorClass, sup: PyErrorClass) -> bool {
    ||| sub == sup
    ||| spec_parent_class(sub) == Some(sup)
    ||| (spec_parent_class(sub) matches Some(p) && spec_parent_class(p) == Some(sup))
}

/// Every failure lands on the same conceptual class in the C ABI and in
/// Python: the code of the Python class an SDK failure raises is the code the
/// C ABI reports for it.
pub proof fn lemma_bindings_agree(kind: SdkErrorKind)
    ensures
        spec_code_of_class(spec_py_error_class(kind)) == spec_error_code(kind),
{
}

/// The hierarchy is rooted: every branded class derives from
/// `ThetaDataError`, and `InvalidCredentialsError` from
/// `AuthenticationError`.
pub proof fn lemma_hierarchy_rooted(c: PyErrorClass)
    ensures
        is_subclass(c, PyErrorClass::ThetaDataError),
        is_subclass(PyErrorClass::InvalidCredentialsError, PyErrorClass::AuthenticationError),
{
}

/// Distinct classes carry distinct C ABI codes, so the code alone selects the
/// class a binding raises.
pub proof fn lemma_class_codes_distinct(a: PyErrorClass, b: PyErrorClass)
    ensures
        spec_code_of_class(a) == spec_code_of_class(b) ==> a == b,
{
}

/// An exception to raise: its class and message.
pub struct PyRaise {
    pub class: PyErrorClass,
    pub message: Vec<u8>,
}

/// Whether `r` is an exception of class `c` with message `m`.
pub open spec fn raises(r: PyRaise, c: PyErrorClass, m: Seq<u8>) -> bool {
    r.class == c && r.message@ == m
}

/// The exception an SDK failure raises: the class its kind routes to,
/// carrying the failure's message. (For `RateLimitError` the binding layer
/// also attaches the retry hint as the `retry_after` attribute.)
pub fn to_py_err(e: SdkError) -> (r: PyRaise)
    ensures
        raises(r, spec_py_error_class(e.kind), e.message@),
{
    let class = py_error_class_for(&e.kind);
    PyRaise { class: class, message: e.message }
}

/// The `retry_after` attribute, in milliseconds, that the exception an SDK
/// failure raises carries on the instance: only a `RateLimitError` carries
/// one, and it holds the failure's back-off hint (`None` when the server
/// sent none); every other class carries no such attribute (`None`).
pub open spec fn spec_py_retry_after(e: SdkError) -> Option<Option<u128>> {
    if spec_py_error_class(e.kind) == PyErrorClass::RateLimitError {
        Some(e.retry_after_ms)
    } else {
        None
    }
}

/// Which raised exception carries the back-off hint, and its value in
/// milliseconds (see [`spec_py_retry_after`]).
pub fn py_retry_after_ms(e: &SdkError) -> (r: Option<Option<u128>>)
    ensures
        r == spec_py_retry_after(*e),
{
    match py_error_class_for(&e.kind) {
        PyErrorClass::RateLimitError => Some(e.retry_after_ms),
        _ => None,
    }
}

/// The built-in exception classes the older Python SDK raises.
#[derive(Clone, Copy, Debug, PartialEq, Eq, Structural)]
pub enum BuiltinPyClass {
    ConnectionError,
    ValueError,
    RuntimeError,
}

/// An SDK failure as the older Python SDK distinguishes it.
pub enum LegacySdkError {
    /// Authentication failed; carries the SDK's message.
    Auth(Vec<u8>),
    /// The configuration was rejected; carries the SDK's message.
    Config(Vec<u8>),
    /// Anything else; carries the failure's rendered text.
    Other(Vec<u8>),
}

/// The older Python SDK's mapping: authentication failures raise
/// `ConnectionError`, configuration failures `ValueError`, everything else
/// `RuntimeError`, each with the failure's text.
pub fn legacy_to_py_err(e: LegacySdkError) -> (r: (BuiltinPyClass, Vec<u8>))
    ensures
        match e {
            LegacySdkError::Auth(m) => r.0 == BuiltinPyClass::ConnectionError && r.1@ == m@,
            LegacySdkError::Config(m) => r.0 == BuiltinPyClass::ValueError && r.1@ == m@,
            LegacySdkError::Other(m) => r.0 == BuiltinPyClass::RuntimeError && r.1@ == m@,
        },
{
    match e {
        LegacySdkError::Auth(m) => (BuiltinPyClass::ConnectionError, m),
        LegacySdkError::Config(m) => (BuiltinPyClass::ValueError, m),
        LegacySdkError::Other(m) => (BuiltinPyClass::RuntimeError, m),
    }
}

/// The names the exception classes are registered under on the module, in
/// registration order: every class under its own name, then the two
/// back-compatibility aliases (`NoDataFoundError` for `NotFoundError`,
/// `TimeoutError` for `DeadlineExceededError`) bound to the same classes.
pub open spec fn spec_registry() -> Seq<(Seq<char>, PyErrorClass)> {
    seq![
        ("ThetaDataError"@, PyErrorClass::ThetaDataError),
        ("AuthenticationError"@, PyErrorClass::AuthenticationError),
        ("InvalidCredentialsError"@, PyErrorClass::InvalidCredentialsError),
        ("SubscriptionError"@, PyErrorClass::SubscriptionError),
        ("RateLimitError"@, PyErrorClass::RateLimitError),
        ("InvalidParameterError"@, PyErrorClass::InvalidParameterError),
        ("SchemaMismatchError"@, PyErrorClass::SchemaMismatchError),
        ("NetworkError"@, PyErrorClass::NetworkError),
        ("UnavailableError"@, PyErrorClass::UnavailableError),
        ("DeadlineExceededError"@, PyErrorClass::DeadlineExceededError),
        ("NotFoundError"@, PyErrorClass::NotFoundError),
        ("StreamError"@, PyErrorClass::StreamError),
        ("ConfigError"@, PyErrorClass::ConfigError),
        ("NoDataFoundError"@, PyErrorClass::NotFoundError),
        ("TimeoutError"@, PyErrorClass::DeadlineExceededError),
    ]
}

/// The (name, class) pairs `register_exceptions` adds to the module.
pub fn exception_registry() -> (r: Vec<(&'static str, PyErrorClass)>)
    ensures
        r@.len() == spec_registry().len(),
        forall|i: int| 0 <= i < r@.len() ==> (#[trigger] r@[i]).0@ == spec_registry()[i].0
            && r@[i].1 == spec_registry()[i].1,
{
    let mut r: Vec<(&'static str, PyErrorClass)> = Vec::new();
    r.push(("ThetaDataError", PyErrorClass::ThetaDataError));
    r.push(("AuthenticationError", PyErrorClass::AuthenticationError));
    r.push(("InvalidCredentialsError", PyErrorClass::InvalidCredentialsError));
    r.push(("SubscriptionError", PyErrorClass::SubscriptionError));
    r.push(("RateLimitError", PyErrorClass::RateLimitError));
    r.push(("InvalidParameterError", PyErrorClass::InvalidParameterError));
    r.push(("SchemaMismatchError", PyErrorClass::SchemaMismatchError));
    r.push(("NetworkError", PyErrorClass::NetworkError));
    r.push(("UnavailableError", PyErrorClass::UnavailableError));
    r.push(("DeadlineExceededError", PyErrorClass::DeadlineExceededError));
    r.push(("NotFoundError", PyErrorClass::NotFoundError));
    r.push(("StreamError", PyErrorClass::StreamError));
    r.push(("ConfigError", PyErrorClass::ConfigError));
    r.push(("NoDataFoundError", PyErrorClass::NotFoundError));
    r.push(("TimeoutError", PyErrorClass::DeadlineExceededError));
    r
}

/// The module exposes every exception class under its own name, and each
/// legacy alias names the same class object as its canonical name, so an
/// `except` clause on the old name catches what is raised today.
pub proof fn lemma_registry_complete(c: PyErrorClass)
    ensures
        exists|i: int| 0 <= i < 13 && #[trigger] spec_registry()[i] == (spec_class_name(c), c),
        spec_registry()[13].1 == spec_registry()[10].1,
        spec_registry()[14].1 == spec_registry()[9].1,
        spec_registry()[10].0 == spec_class_name(PyErrorClass::NotFoundError),
        spec_registry()[9].0 == spec_class_name(PyErrorClass::DeadlineExceededError),
{
    let reg = spec_registry();
    match c {
        PyErrorClass::ThetaDataError => assert(reg[0] == (spec_class_name(c), c)),
        PyErrorClass::AuthenticationError => assert(reg[1] == (spec_class_name(c), c)),
        PyErrorClass::InvalidCredentialsError => assert(reg[2] == (spec_class_name(c), c)),
        PyErrorClass::SubscriptionError => assert(reg[3] == (spec_class_name(c), c)),
        PyErrorClass::RateLimitError => assert(reg[4] == (spec_class_name(c), c)),
        PyErrorClass::InvalidParameterError => assert(reg[5] == (spec_class_name(c), c)),
        PyErrorClass::SchemaMismatchError => assert(reg[6] == (spec_class_name(c), c)),
        PyErrorClass::NetworkError => assert(reg[7] == (spec_class_name(c), c)),
        PyErrorClass::UnavailableError => assert(reg[8] == (spec_class_name(c), c)),
        PyErrorClass::DeadlineExceededError => assert(reg[9] == (spec_class_name(c), c)),
        PyErrorClass::NotFoundError => assert(reg[10] == (spec_class_name(c), c)),
        PyErrorClass::StreamError => assert(reg[11] == (spec_class_name(c), c)),
        PyErrorClass::ConfigError => assert(reg[12] == (spec_class_name(c), c)),
    }
}

} // verus!
