//! The library's view of an SDK failure, and the two dispatch tables that
//! route it: the C ABI error code and the Python exception class.
//!
//! An SDK error reaches the bindings as an opaque value of the SDK crate;
//! the binding layer copies out what the routing reads (the variant, the
//! variant's kind, the formatted message and the optional retry-after
//! hint) into an [`SdkError`], and every decision after that is made here.

use vstd::prelude::*;
use crate::codes::{
    is_defined_code, THETADATADX_ERR_AUTHENTICATION, THETADATADX_ERR_CONFIG,
    THETADATADX_ERR_DEADLINE_EXCEEDED, THETADATADX_ERR_INVALID_CREDENTIALS,
    THETADATADX_ERR_INVALID_PARAMETER, THETADATADX_ERR_NETWORK, THETADATADX_ERR_NONE,
    THETADATADX_ERR_NOT_FOUND, THETADATADX_ERR_OTHER, THETADATADX_ERR_RATE_LIMIT,
    THETADATADX_ERR_SCHEMA_MISMATCH, THETADATADX_ERR_STREAM, THETADATADX_ERR_SUBSCRIPTION,
    THETADATADX_ERR_UNAVAILABLE, THETADATADX_RETRY_AFTER_NONE,
};

verus! {

/// Why an authentication attempt failed.
#[derive(Clone, Copy, Debug, PartialEq, Eq, Structural)]
pub enum AuthErrorKind {
    InvalidCredentials,
    NetworkError,
    Timeout,
    ServerError,
    /// Any kind the SDK adds later.
    Other,
}

/// The gRPC status class of a failed market-data call.
#[derive(Clone, Copy, Debug, PartialEq, Eq, Structural)]
pub enum GrpcStatusKind {
    PermissionDenied,
    ResourceExhausted,
    NotFound,
    DeadlineExceeded,
    Unauthenticated,
    Unavailable,
    /// Every other status code.
    Other,
}

/// Why a streaming session failed.
#[derive(Clone, Copy, Debug, PartialEq, Eq, Structural)]
pub enum StreamErrorKind {
    TooManyRequests,
    Timeout,
    ConnectionRefused,
    Disconnected,
    ProtocolError,
    /// Any kind the SDK adds later.
    Other,
}

/// Why a configuration step failed.
#[derive(Clone, Copy, Debug, PartialEq, Eq, Structural)]
pub enum ConfigErrorKind {
    /// A supplied value was rejected.
    InvalidValue,
    /// A supplied number was outside its allowed range.
    OutOfRange,
    /// A required field was absent.
    Missing,
    /// The config file could not be read.
    Io,
    /// The config file did not parse.
    TomlParse,
    /// An internal configuration invariant broke.
    Internal,
}

/// The variant of an SDK failure, with the kind the routing reads.
#[derive(Clone, Copy, Debug, PartialEq, Eq, Structural)]
pub enum SdkErrorKind {
    Auth(AuthErrorKind),
    Grpc(GrpcStatusKind),
    NoData,
    Timeout,
    Transport,
    Tls,
    Io,
    Http,
    Decode,
    Decompress,
    Config(ConfigErrorKind),
    Stream(StreamErrorKind),
    FlatFilesUnavailable,
    PartialReconnect,
    PartialShardFetch,
    /// Any variant the SDK adds later.
    Other,
}

/// An SDK failure as the bindings see it.
pub struct SdkError {
    /// Variant and kind.
    pub kind: SdkErrorKind,
    /// The error's formatted message, as UTF-8 bytes.
    pub message: Vec<u8>,
    /// The server-supplied back-off in milliseconds, when the upstream
    /// status carried a retry hint.
    pub retry_after_ms: Option<u128>,
}

/// True for the config kinds that reject a caller-supplied argument (as
/// opposed to an environmental fault).
pub open spec fn spec_is_invalid_parameter(kind: ConfigErrorKind) -> bool {
    match kind {
        ConfigErrorKind::InvalidValue | ConfigErrorKind::OutOfRange
            | ConfigErrorKind::Missing => true,
        _ => false,
    }
}

/// Whether a config failure rejected a caller-supplied argument.
pub fn is_invalid_parameter(kind: ConfigErrorKind) -> (r: bool)
    ensures
        r == spec_is_invalid_parameter(kind),
{
    match kind {
        ConfigErrorKind::InvalidValue | ConfigErrorKind::OutOfRange
            | ConfigErrorKind::Missing => true,
        _ => false,
    }
}

/// The C ABI discriminant each SDK failure surfaces as.
pub open spec fn spec_error_code(kind: SdkErrorKind) -> i32 {
    match kind {
        SdkErrorKind::Auth(k) => match k {
            AuthErrorKind::InvalidCredentials => THETADATADX_ERR_INVALID_CREDENTIALS,
            AuthErrorKind::NetworkError => THETADATADX_ERR_NETWORK,
            AuthErrorKind::Timeout => THETADATADX_ERR_DEADLINE_EXCEEDED,
            _ => THETADATADX_ERR_AUTHENTICATION,
        },
        SdkErrorKind::Grpc(k) => match k {
            GrpcStatusKind::PermissionDenied => THETADATADX_ERR_SUBSCRIPTION,
            GrpcStatusKind::ResourceExhausted => THETADATADX_ERR_RATE_LIMIT,
            GrpcStatusKind::NotFound => THETADATADX_ERR_NOT_FOUND,
            GrpcStatusKind::DeadlineExceeded => THETADATADX_ERR_DEADLINE_EXCEEDED,
            GrpcStatusKind::Unauthenticated => THETADATADX_ERR_AUTHENTICATION,
            GrpcStatusKind::Unavailable => THETADATADX_ERR_UNAVAILABLE,
            GrpcStatusKind::Other => THETADATADX_ERR_OTHER,
        },
        SdkErrorKind::NoData => THETADATADX_ERR_NOT_FOUND,
        SdkErrorKind::Timeout => THETADATADX_ERR_DEADLINE_EXCEEDED,
        SdkErrorKind::Transport | SdkErrorKind::Tls | SdkErrorKind::Io
            | SdkErrorKind::Http => THETADATADX_ERR_NETWORK,
        SdkErrorKind::Decode | SdkErrorKind::Decompress => THETADATADX_ERR_SCHEMA_MISMATCH,
        SdkErrorKind::Config(k) => if spec_is_invalid_parameter(k) {
            THETADATADX_ERR_INVALID_PARAMETER
        } else {
            THETADATADX_ERR_CONFIG
        },
        SdkErrorKind::Stream(k) => match k {
            StreamErrorKind::TooManyRequests => THETADATADX_ERR_RATE_LIMIT,
            StreamErrorKind::Timeout => THETADATADX_ERR_DEADLINE_EXCEEDED,
            StreamErrorKind::ConnectionRefused
                | StreamErrorKind::Disconnected => THETADATADX_ERR_NETWORK,
            _ => THETADATADX_ERR_STREAM,
        },
        SdkErrorKind::FlatFilesUnavailable | SdkErrorKind::PartialReconnect
            | SdkErrorKind::PartialShardFetch => THETADATADX_ERR_STREAM,
        SdkErrorKind::Other => THETADATADX_ERR_OTHER,
    }
}

/// Map an SDK failure to its typed C ABI discriminant.
pub fn error_code_for(kind: &SdkErrorKind) -> (code: i32)
    ensures
        code == spec_error_code(*kind),
        is_defined_code(code),
        code != THETADATADX_ERR_NONE,
{
    match kind {
        SdkErrorKind::Auth(k) => match k {
            AuthErrorKind::InvalidCredentials => THETADATADX_ERR_INVALID_CREDENTIALS,
            AuthErrorKind::NetworkError => THETADATADX_ERR_NETWORK,
            AuthErrorKind::Timeout => THETADATADX_ERR_DEADLINE_EXCEEDED,
            _ => THETADATADX_ERR_AUTHENTICATION,
        },
        SdkErrorKind::Grpc(k) => match k {
            GrpcStatusKind::PermissionDenied => THETADATADX_ERR_SUBSCRIPTION,
            GrpcStatusKind::ResourceExhausted => THETADATADX_ERR_RATE_LIMIT,
            GrpcStatusKind::NotFound => THETADATADX_ERR_NOT_FOUND,
            GrpcStatusKind::DeadlineExceeded => THETADATADX_ERR_DEADLINE_EXCEEDED,
            GrpcStatusKind::Unauthenticated => THETADATADX_ERR_AUTHENTICATION,
            GrpcStatusKind::Unavailable => THETADATADX_ERR_UNAVAILABLE,
            GrpcStatusKind::Other => THETADATADX_ERR_OTHER,
        },
        SdkErrorKind::NoData => THETADATADX_ERR_NOT_FOUND,
        SdkErrorKind::Timeout => THETADATADX_ERR_DEADLINE_EXCEEDED,
        SdkErrorKind::Transport | SdkErrorKind::Tls | SdkErrorKind::Io
            | SdkErrorKind::Http => THETADATADX_ERR_NETWORK,
        SdkErrorKind::Decode | SdkErrorKind::Decompress => THETADATADX_ERR_SCHEMA_MISMATCH,
        SdkErrorKind::Config(k) => if is_invalid_parameter(*k) {
            THETADATADX_ERR_INVALID_PARAMETER
        } else {
            THETADATADX_ERR_CONFIG
        },
        SdkErrorKind::Stream(k) => match k {
            StreamErrorKind::TooManyRequests => THETADATADX_ERR_RATE_LIMIT,
            StreamErrorKind::Timeout => THETADATADX_ERR_DEADLINE_EXCEEDED,
            StreamErrorKind::ConnectionRefused
                | StreamErrorKind::Disconnected => THETADATADX_ERR_NETWORK,
            _ => THETADATADX_ERR_STREAM,
        },
        SdkErrorKind::FlatFilesUnavailable | SdkErrorKind::PartialReconnect
            | SdkErrorKind::PartialShardFetch => THETADATADX_ERR_STREAM,
        SdkErrorKind::Other => THETADATADX_ERR_OTHER,
    }
}

/// The retry-after hint, in milliseconds, as the error slot holds it for a
/// rate-limit failure: the hint when it fits in an `i64`, the "no hint"
/// sentinel when there is none or it does not fit.
pub open spec fn spec_retry_after_slot(hint_ms: Option<u128>) -> i64 {
    match hint_ms {
        Some(ms) => if ms <= i64::MAX as u128 { ms as i64 } else { THETADATADX_RETRY_AFTER_NONE },
        None => THETADATADX_RETRY_AFTER_NONE,
    }
}

/// Convert an optional back-off hint into the value the retry-after slot
/// holds.
pub fn retry_after_slot_value(hint_ms: Option<u128>) -> (r: i64)
    ensures
        r == spec_retry_after_slot(hint_ms),
        r >= THETADATADX_RETRY_AFTER_NONE,
{
    match hint_ms {
        Some(ms) => if ms <= 0x7fff_ffff_ffff_ffffu128 {
            ms as i64
        } else {
            THETADATADX_RETRY_AFTER_NONE
        },
        None => THETADATADX_RETRY_AFTER_NONE,
    }
}

} // verus!
