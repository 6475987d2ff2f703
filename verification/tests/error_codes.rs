use thetadatadx_ffi_core::codes::{
    THETADATADX_ERR_AUTHENTICATION, THETADATADX_ERR_CONFIG, THETADATADX_ERR_DEADLINE_EXCEEDED,
    THETADATADX_ERR_INVALID_CREDENTIALS, THETADATADX_ERR_INVALID_PARAMETER, THETADATADX_ERR_NETWORK,
    THETADATADX_ERR_NONE, THETADATADX_ERR_NOT_FOUND, THETADATADX_ERR_OTHER, THETADATADX_ERR_RATE_LIMIT,
    THETADATADX_ERR_SCHEMA_MISMATCH, THETADATADX_ERR_STREAM, THETADATADX_ERR_SUBSCRIPTION,
    THETADATADX_ERR_UNAVAILABLE, THETADATADX_RETRY_AFTER_NONE,
};
use thetadatadx_ffi_core::cstr::{require_cstr, require_handle, require_symbol_array, CStrArg, CStrArray};
use thetadatadx_ffi_core::error_slot::{
    clear_error, clear_retry_after, error_cstring, set_error, set_error_from, set_error_with_code, LastError,
};
use thetadatadx_ffi_core::sdk_error::{
    error_code_for, AuthErrorKind, ConfigErrorKind, GrpcStatusKind, SdkError, SdkErrorKind, StreamErrorKind,
};

fn grpc(kind: GrpcStatusKind) -> SdkErrorKind {
    SdkErrorKind::Grpc(kind)
}

fn auth(kind: AuthErrorKind) -> SdkErrorKind {
    SdkErrorKind::Auth(kind)
}

fn fpss(kind: StreamErrorKind) -> SdkErrorKind {
    SdkErrorKind::Stream(kind)
}

fn err(kind: SdkErrorKind, message: &str, retry_after_ms: Option<u128>) -> SdkError {
    SdkError { kind, message: message.as_bytes().to_vec(), retry_after_ms }
}

fn message_of(slot: &LastError) -> Option<String> {
    slot.message().map(|m| String::from_utf8(m.clone()).expect("message is UTF-8"))
}

#[test]
fn grpc_kinds_route_to_expected_codes() {
    assert_eq!(error_code_for(&grpc(GrpcStatusKind::PermissionDenied)), THETADATADX_ERR_SUBSCRIPTION);
    assert_eq!(error_code_for(&grpc(GrpcStatusKind::ResourceExhausted)), THETADATADX_ERR_RATE_LIMIT);
    assert_eq!(error_code_for(&grpc(GrpcStatusKind::NotFound)), THETADATADX_ERR_NOT_FOUND);
    assert_eq!(error_code_for(&grpc(GrpcStatusKind::DeadlineExceeded)), THETADATADX_ERR_DEADLINE_EXCEEDED);
    assert_eq!(error_code_for(&grpc(GrpcStatusKind::Unauthenticated)), THETADATADX_ERR_AUTHENTICATION);
    assert_eq!(error_code_for(&grpc(GrpcStatusKind::Unavailable)), THETADATADX_ERR_UNAVAILABLE);
}

#[test]
fn auth_kinds_route_to_expected_codes() {
    assert_eq!(error_code_for(&auth(AuthErrorKind::InvalidCredentials)), THETADATADX_ERR_INVALID_CREDENTIALS);
    assert_eq!(error_code_for(&auth(AuthErrorKind::NetworkError)), THETADATADX_ERR_NETWORK);
    assert_eq!(error_code_for(&auth(AuthErrorKind::Timeout)), THETADATADX_ERR_DEADLINE_EXCEEDED);
    assert_eq!(error_code_for(&auth(AuthErrorKind::ServerError)), THETADATADX_ERR_AUTHENTICATION);
}

#[test]
fn umbrella_variants_route_to_expected_codes() {
    assert_eq!(error_code_for(&SdkErrorKind::NoData), THETADATADX_ERR_NOT_FOUND);
    assert_eq!(error_code_for(&SdkErrorKind::Timeout), THETADATADX_ERR_DEADLINE_EXCEEDED);
    assert_eq!(error_code_for(&SdkErrorKind::Transport), THETADATADX_ERR_NETWORK);
    assert_eq!(error_code_for(&SdkErrorKind::Decode), THETADATADX_ERR_SCHEMA_MISMATCH);
}

#[test]
fn config_validation_routes_to_invalid_parameter_others_to_config() {
    assert_eq!(error_code_for(&SdkErrorKind::Config(ConfigErrorKind::InvalidValue)), THETADATADX_ERR_INVALID_PARAMETER);
    assert_eq!(error_code_for(&SdkErrorKind::Config(ConfigErrorKind::OutOfRange)), THETADATADX_ERR_INVALID_PARAMETER);
    assert_eq!(error_code_for(&SdkErrorKind::Config(ConfigErrorKind::Missing)), THETADATADX_ERR_INVALID_PARAMETER);
    // The flat-file dataset check rejects an unserved pair as an invalid value.
    assert_eq!(error_code_for(&SdkErrorKind::Config(ConfigErrorKind::InvalidValue)), THETADATADX_ERR_INVALID_PARAMETER);
    assert_eq!(error_code_for(&SdkErrorKind::Config(ConfigErrorKind::Io)), THETADATADX_ERR_CONFIG);
    assert_eq!(error_code_for(&SdkErrorKind::Config(ConfigErrorKind::TomlParse)), THETADATADX_ERR_CONFIG);
}

#[test]
fn set_error_from_stashes_retry_after_hint() {
    let mut slot = LastError::new();
    clear_error(&mut slot);
    set_error_from(&mut slot, &err(grpc(GrpcStatusKind::ResourceExhausted), "429", Some(1500)));
    assert_eq!(slot.code(), THETADATADX_ERR_RATE_LIMIT);
    assert_eq!(slot.retry_after_ms(), 1500);

    set_error_from(&mut slot, &err(grpc(GrpcStatusKind::ResourceExhausted), "", None));
    assert_eq!(slot.retry_after_ms(), THETADATADX_RETRY_AFTER_NONE);

    set_error_from(&mut slot, &err(grpc(GrpcStatusKind::ResourceExhausted), "429", Some(2000)));
    assert_eq!(slot.retry_after_ms(), 2000);
    set_error(&mut slot, "unrelated failure".as_bytes());
    assert_eq!(slot.retry_after_ms(), THETADATADX_RETRY_AFTER_NONE);

    clear_error(&mut slot);
    assert_eq!(slot.retry_after_ms(), THETADATADX_RETRY_AFTER_NONE);
}

#[test]
fn flatfiles_unavailable_routes_to_stream() {
    assert_eq!(error_code_for(&SdkErrorKind::FlatFilesUnavailable), THETADATADX_ERR_STREAM);
}

#[test]
fn partial_reconnect_routes_to_stream() {
    assert_eq!(error_code_for(&SdkErrorKind::PartialReconnect), THETADATADX_ERR_STREAM);
}

#[test]
fn partial_shard_fetch_routes_to_stream() {
    assert_eq!(error_code_for(&SdkErrorKind::PartialShardFetch), THETADATADX_ERR_STREAM);
}

#[test]
fn fpss_kinds_route_to_expected_codes() {
    assert_eq!(error_code_for(&fpss(StreamErrorKind::TooManyRequests)), THETADATADX_ERR_RATE_LIMIT);
    assert_eq!(error_code_for(&fpss(StreamErrorKind::Timeout)), THETADATADX_ERR_DEADLINE_EXCEEDED);
    assert_eq!(error_code_for(&fpss(StreamErrorKind::Disconnected)), THETADATADX_ERR_NETWORK);
    assert_eq!(error_code_for(&fpss(StreamErrorKind::ProtocolError)), THETADATADX_ERR_STREAM);
}

#[test]
fn set_error_from_populates_both_slots() {
    let mut slot = LastError::new();
    set_error_from(&mut slot, &err(grpc(GrpcStatusKind::PermissionDenied), "", None));
    assert_eq!(slot.code(), THETADATADX_ERR_SUBSCRIPTION);
    assert!(slot.message().is_some());
    clear_error(&mut slot);
    assert_eq!(slot.code(), THETADATADX_ERR_NONE);
    assert!(slot.message().is_none());
}

#[test]
fn set_error_defaults_to_other_code() {
    let mut slot = LastError::new();
    set_error(&mut slot, "plain error".as_bytes());
    assert_eq!(slot.code(), THETADATADX_ERR_OTHER);
    clear_error(&mut slot);
}

#[test]
fn set_error_with_interior_nul_still_populates_message_slot() {
    let mut slot = LastError::new();
    set_error_with_code(&mut slot, "bad\0value".as_bytes(), THETADATADX_ERR_INVALID_PARAMETER);
    assert_eq!(slot.code(), THETADATADX_ERR_INVALID_PARAMETER);
    let msg = message_of(&slot).expect("error message slot must be populated");
    assert_eq!(msg, "bad?value");
    clear_error(&mut slot);
}

#[test]
fn require_cstr_null_returns_fallback_and_sets_error() {
    let mut slot = LastError::new();
    let result = require_cstr(&mut slot, "s_ptr".as_bytes(), CStrArg::Null);
    assert!(result.is_none());
    assert_eq!(slot.code(), THETADATADX_ERR_OTHER);
    let msg = message_of(&slot).expect("error slot populated");
    assert!(msg.contains("is null"), "expected null mention, got {msg}");
    assert_eq!(msg, "s_ptr is null");
}

#[test]
fn require_cstr_valid_utf8_returns_str() {
    let mut slot = LastError::new();
    let result = require_cstr(&mut slot, "s_ptr".as_bytes(), CStrArg::Text("payload".to_string()));
    assert_eq!(result.as_deref(), Some("payload"));
    assert_eq!(slot.code(), THETADATADX_ERR_NONE);
    assert!(slot.message().is_none());
}

#[test]
fn require_cstr_invalid_utf8_returns_fallback_and_sets_error() {
    let mut slot = LastError::new();
    let detail = String::from_utf8(vec![0xFF]).unwrap_err().utf8_error().to_string();
    let result = require_cstr(&mut slot, "s_ptr".as_bytes(), CStrArg::InvalidUtf8(detail.as_bytes().to_vec()));
    assert!(result.is_none());
    assert_eq!(slot.code(), THETADATADX_ERR_OTHER);
    let msg = message_of(&slot).expect("error slot populated");
    assert!(msg.contains("UTF-8"), "expected UTF-8 mention, got {msg}");
    assert_eq!(msg, format!("s_ptr is not valid UTF-8: {detail}"));
}

#[test]
fn require_cstr_empty_returns_empty_str_no_error() {
    let mut slot = LastError::new();
    let result = require_cstr(&mut slot, "s_ptr".as_bytes(), CStrArg::Text(String::new()));
    assert_eq!(result.as_deref(), Some(""));
    assert_eq!(slot.code(), THETADATADX_ERR_NONE);
    assert!(slot.message().is_none());
}

#[test]
fn require_client_null_returns_fallback_and_sets_error() {
    let mut slot = LastError::new();
    let ok = require_handle(&mut slot, "client".as_bytes(), true);
    assert!(!ok);
    assert_eq!(slot.code(), THETADATADX_ERR_OTHER);
    let msg = message_of(&slot).expect("error slot populated");
    assert!(msg.contains("handle is null"), "expected handle-is-null mention, got {msg}");
}

#[test]
fn require_client_valid_returns_ref() {
    let mut slot = LastError::new();
    let ok = require_handle(&mut slot, "client".as_bytes(), false);
    assert!(ok);
    assert_eq!(slot.code(), THETADATADX_ERR_NONE);
    assert!(slot.message().is_none());
}

#[test]
fn require_symbol_array_null_pointer_zero_len_ok() {
    let mut slot = LastError::new();
    let out = require_symbol_array(&mut slot, CStrArray::Null { len: 0 }).expect("(null, 0) is the empty-slice case");
    assert!(out.is_empty());
    assert_eq!(slot.code(), THETADATADX_ERR_NONE);
}

#[test]
fn require_symbol_array_null_pointer_nonzero_len_returns_fallback_and_sets_error() {
    let mut slot = LastError::new();
    let result = require_symbol_array(&mut slot, CStrArray::Null { len: 3 });
    assert!(result.is_none());
    let msg = message_of(&slot).expect("error slot populated");
    assert!(msg.contains("symbols array pointer is null"), "expected null-array mention, got {msg}");
}

#[test]
fn require_symbol_array_valid_returns_strings() {
    let mut slot = LastError::new();
    let items = vec![CStrArg::Text("AAPL".to_string()), CStrArg::Text("MSFT".to_string())];
    let out = require_symbol_array(&mut slot, CStrArray::Items(items)).expect("valid input");
    assert_eq!(out, vec!["AAPL".to_owned(), "MSFT".to_owned()]);
    assert_eq!(slot.code(), THETADATADX_ERR_NONE);
}

#[test]
fn require_symbol_array_names_first_bad_element() {
    let mut slot = LastError::new();
    let items = vec![
        CStrArg::Text("AAPL".to_string()),
        CStrArg::Null,
        CStrArg::InvalidUtf8(b"bad".to_vec()),
    ];
    assert!(require_symbol_array(&mut slot, CStrArray::Items(items)).is_none());
    assert_eq!(message_of(&slot).as_deref(), Some("symbols[1] is null or invalid UTF-8"));
    assert_eq!(slot.code(), THETADATADX_ERR_OTHER);
}

#[test]
fn clear_retry_after_keeps_message_and_code() {
    let mut slot = LastError::new();
    set_error_from(&mut slot, &err(grpc(GrpcStatusKind::ResourceExhausted), "slow down", Some(250)));
    clear_retry_after(&mut slot);
    assert_eq!(slot.retry_after_ms(), THETADATADX_RETRY_AFTER_NONE);
    assert_eq!(slot.code(), THETADATADX_ERR_RATE_LIMIT);
    assert_eq!(message_of(&slot).as_deref(), Some("slow down"));
}

#[test]
fn oversized_retry_hint_reads_as_no_hint() {
    let mut slot = LastError::new();
    set_error_from(&mut slot, &err(grpc(GrpcStatusKind::ResourceExhausted), "x", Some(u128::MAX)));
    assert_eq!(slot.retry_after_ms(), THETADATADX_RETRY_AFTER_NONE);
    set_error_from(&mut slot, &err(grpc(GrpcStatusKind::ResourceExhausted), "x", Some(i64::MAX as u128)));
    assert_eq!(slot.retry_after_ms(), i64::MAX);
}

#[test]
fn error_cstring_replaces_every_nul() {
    assert_eq!(error_cstring(b"\0a\0"), b"?a?".to_vec());
    assert_eq!(error_cstring(b"plain"), b"plain".to_vec());
}

#[test]
fn every_other_kind_routes_somewhere_defined() {
    assert_eq!(error_code_for(&SdkErrorKind::Tls), THETADATADX_ERR_NETWORK);
    assert_eq!(error_code_for(&SdkErrorKind::Io), THETADATADX_ERR_NETWORK);
    assert_eq!(error_code_for(&SdkErrorKind::Http), THETADATADX_ERR_NETWORK);
    assert_eq!(error_code_for(&SdkErrorKind::Decompress), THETADATADX_ERR_SCHEMA_MISMATCH);
    assert_eq!(error_code_for(&SdkErrorKind::Other), THETADATADX_ERR_OTHER);
    assert_eq!(error_code_for(&grpc(GrpcStatusKind::Other)), THETADATADX_ERR_OTHER);
    assert_eq!(error_code_for(&fpss(StreamErrorKind::ConnectionRefused)), THETADATADX_ERR_NETWORK);
    assert_eq!(error_code_for(&fpss(StreamErrorKind::Other)), THETADATADX_ERR_STREAM);
    assert_eq!(error_code_for(&auth(AuthErrorKind::Other)), THETADATADX_ERR_AUTHENTICATION);
    assert_eq!(error_code_for(&SdkErrorKind::Config(ConfigErrorKind::Internal)), THETADATADX_ERR_CONFIG);
}

#[test]
fn retry_hint_is_kept_only_for_rate_limits() {
    let mut slot = LastError::new();
    set_error_from(&mut slot, &err(grpc(GrpcStatusKind::NotFound), "missing", Some(100)));
    assert_eq!(slot.retry_after_ms(), THETADATADX_RETRY_AFTER_NONE);
    set_error_from(&mut slot, &err(SdkErrorKind::Stream(StreamErrorKind::TooManyRequests), "slow", Some(100)));
    assert_eq!(slot.code(), THETADATADX_ERR_RATE_LIMIT);
    assert_eq!(slot.retry_after_ms(), 100);
    set_error_from(&mut slot, &err(SdkErrorKind::Transport, "down", Some(100)));
    assert_eq!(slot.retry_after_ms(), THETADATADX_RETRY_AFTER_NONE);
}
