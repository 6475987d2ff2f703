//! Typed error-code discriminants surfaced through the C ABI.
//!
//! Higher-level bindings pick an exception class from these codes instead
//! of matching on the formatted message text.

use vstd::prelude::*;

verus! {

/// No error: the last call succeeded.
pub const THETADATADX_ERR_NONE: i32 = 0;
/// Uncategorized failure that maps to no more specific discriminant.
pub const THETADATADX_ERR_OTHER: i32 = 1;
/// Authentication failed (credentials rejected during the auth handshake).
pub const THETADATADX_ERR_AUTHENTICATION: i32 = 2;
/// Credentials are malformed or were rejected as invalid.
pub const THETADATADX_ERR_INVALID_CREDENTIALS: i32 = 3;
/// The account's subscription does not grant access to the requested data.
pub const THETADATADX_ERR_SUBSCRIPTION: i32 = 4;
/// The server rate-limited the request.
pub const THETADATADX_ERR_RATE_LIMIT: i32 = 5;
/// The requested resource does not exist.
pub const THETADATADX_ERR_NOT_FOUND: i32 = 6;
/// The call exceeded its deadline before the server responded.
pub const THETADATADX_ERR_DEADLINE_EXCEEDED: i32 = 7;
/// The service is temporarily unavailable.
pub const THETADATADX_ERR_UNAVAILABLE: i32 = 8;
/// A transport-layer failure prevented the request from completing.
pub const THETADATADX_ERR_NETWORK: i32 = 9;
/// A decoded payload did not match the expected wire schema.
pub const THETADATADX_ERR_SCHEMA_MISMATCH: i32 = 10;
/// A streaming session failed mid-flight.
pub const THETADATADX_ERR_STREAM: i32 = 11;
/// An environmental configuration fault (config-file I/O, TOML parse,
/// internal invariant).
pub const THETADATADX_ERR_CONFIG: i32 = 12;
/// A client-side parameter was rejected by input validation.
pub const THETADATADX_ERR_INVALID_PARAMETER: i32 = 13;

/// Sentinel read back as the retry-after hint when the last error carries
/// no rate-limit back-off.
pub const THETADATADX_RETRY_AFTER_NONE: i64 = -1;

/// True for every discriminant the C ABI defines.
pub open spec fn is_defined_code(code: i32) -> bool {
    0 <= code <= 13
}

} // verus!
