use thetadatadx_ffi_core::active::{
    check_subscription_entries, contract_entries, full_entries, full_subscriptions, kind_label, right_label, sec_type_name, sec_type_repr, subscription_label, subscription_repr,
};
use thetadatadx_ffi_core::codes::{THETADATADX_ERR_INVALID_PARAMETER, THETADATADX_ERR_RATE_LIMIT};
use thetadatadx_ffi_core::error_slot::LastError;
use thetadatadx_ffi_core::dispatcher::{
    authenticated_status, idle_session, install_running, publish_failed_if_current, streaming_status, DispatcherSession,
};
use thetadatadx_ffi_core::py_async::{route_async_attr, AsyncRoute};
use thetadatadx_ffi_core::py_config::{
    apply_env_overrides, custom_reconnect_delay, parse_reconnect_policy, reconnect_callback_policy,
    reconnect_policy_label, resolve_credentials, CallbackReply, CredentialChoice, DeliveryDepth, EnvSelector,
    ReconnectPolicyKind,
};
use thetadatadx_ffi_core::py_errors::{
    also_value_error, class_name, code_of_class, exception_registry, legacy_to_py_err, parent_class,
    py_error_class_for, py_retry_after_ms, to_py_err, BuiltinPyClass, LegacySdkError, PyErrorClass,
};
use thetadatadx_ffi_core::py_session::{PyStreamError, PyStreamSlots};
use thetadatadx_ffi_core::sdk_error::{
    AuthErrorKind, ConfigErrorKind, GrpcStatusKind, SdkError, SdkErrorKind, StreamErrorKind,
};
use thetadatadx_ffi_core::subscription::{ContractSpec, FullSubscriptionKind, SecType, Subscription, SubscriptionKind};

fn class(kind: SdkErrorKind) -> PyErrorClass {
    py_error_class_for(&kind)
}

fn runtime_message(e: PyStreamError) -> String {
    match e {
        PyStreamError::Runtime(m) => String::from_utf8(m).unwrap(),
        PyStreamError::Sdk(_) => panic!("expected a RuntimeError"),
    }
}

#[test]
fn auth_invalid_credentials_maps_to_invalid_credentials_error() {
    assert_eq!(class(SdkErrorKind::Auth(AuthErrorKind::InvalidCredentials)), PyErrorClass::InvalidCredentialsError);
}

#[test]
fn auth_network_error_maps_to_network_error() {
    assert_eq!(class(SdkErrorKind::Auth(AuthErrorKind::NetworkError)), PyErrorClass::NetworkError);
}

#[test]
fn auth_timeout_maps_to_deadline_exceeded_error() {
    assert_eq!(class(SdkErrorKind::Auth(AuthErrorKind::Timeout)), PyErrorClass::DeadlineExceededError);
}

#[test]
fn grpc_permission_denied_maps_to_subscription_error() {
    assert_eq!(class(SdkErrorKind::Grpc(GrpcStatusKind::PermissionDenied)), PyErrorClass::SubscriptionError);
}

#[test]
fn grpc_resource_exhausted_maps_to_rate_limit() {
    assert_eq!(class(SdkErrorKind::Grpc(GrpcStatusKind::ResourceExhausted)), PyErrorClass::RateLimitError);
}

#[test]
fn grpc_not_found_maps_to_not_found() {
    assert_eq!(class(SdkErrorKind::Grpc(GrpcStatusKind::NotFound)), PyErrorClass::NotFoundError);
}

#[test]
fn grpc_unavailable_maps_to_unavailable() {
    assert_eq!(class(SdkErrorKind::Grpc(GrpcStatusKind::Unavailable)), PyErrorClass::UnavailableError);
}

#[test]
fn nodata_error_maps_to_not_found() {
    assert_eq!(class(SdkErrorKind::NoData), PyErrorClass::NotFoundError);
}

#[test]
fn timeout_variant_maps_to_deadline_exceeded_error() {
    assert_eq!(class(SdkErrorKind::Timeout), PyErrorClass::DeadlineExceededError);
}

#[test]
fn decode_error_maps_to_schema_mismatch() {
    assert_eq!(class(SdkErrorKind::Decode), PyErrorClass::SchemaMismatchError);
}

#[test]
fn fpss_too_many_requests_maps_to_rate_limit() {
    assert_eq!(class(SdkErrorKind::Stream(StreamErrorKind::TooManyRequests)), PyErrorClass::RateLimitError);
}

#[test]
fn fpss_protocol_error_maps_to_stream_error() {
    assert_eq!(class(SdkErrorKind::Stream(StreamErrorKind::ProtocolError)), PyErrorClass::StreamError);
}

#[test]
fn config_validation_failure_maps_to_invalid_parameter() {
    for k in [ConfigErrorKind::InvalidValue, ConfigErrorKind::OutOfRange, ConfigErrorKind::Missing] {
        let c = class(SdkErrorKind::Config(k));
        assert_eq!(c, PyErrorClass::InvalidParameterError);
        assert!(also_value_error(c));
    }
}

#[test]
fn config_environmental_fault_maps_to_config_error() {
    for k in [ConfigErrorKind::Io, ConfigErrorKind::TomlParse, ConfigErrorKind::Internal] {
        assert_eq!(class(SdkErrorKind::Config(k)), PyErrorClass::ConfigError);
    }
}

#[test]
fn flatfiles_unavailable_maps_to_stream_error() {
    assert_eq!(class(SdkErrorKind::FlatFilesUnavailable), PyErrorClass::StreamError);
}

#[test]
fn partial_reconnect_maps_to_stream_error() {
    assert_eq!(class(SdkErrorKind::PartialReconnect), PyErrorClass::StreamError);
}

#[test]
fn partial_shard_fetch_maps_to_stream_error() {
    assert_eq!(class(SdkErrorKind::PartialShardFetch), PyErrorClass::StreamError);
}

#[test]
fn exception_hierarchy_roots_at_theta_data_error() {
    let all = [
        PyErrorClass::AuthenticationError,
        PyErrorClass::InvalidCredentialsError,
        PyErrorClass::SubscriptionError,
        PyErrorClass::RateLimitError,
        PyErrorClass::InvalidParameterError,
        PyErrorClass::SchemaMismatchError,
        PyErrorClass::NetworkError,
        PyErrorClass::UnavailableError,
        PyErrorClass::DeadlineExceededError,
        PyErrorClass::NotFoundError,
        PyErrorClass::StreamError,
        PyErrorClass::ConfigError,
    ];
    for c in all {
        let mut cur = c;
        let mut steps = 0;
        while let Some(p) = parent_class(cur) {
            cur = p;
            steps += 1;
            assert!(steps < 4);
        }
        assert_eq!(cur, PyErrorClass::ThetaDataError, "{} is not rooted", class_name(c));
    }
    assert_eq!(parent_class(PyErrorClass::ThetaDataError), None);
}

#[test]
fn invalid_credentials_is_subclass_of_authentication_error() {
    assert_eq!(parent_class(PyErrorClass::InvalidCredentialsError), Some(PyErrorClass::AuthenticationError));
}

#[test]
fn legacy_names_are_aliases_of_canonical_classes() {
    let reg = exception_registry();
    let lookup = |name: &str| reg.iter().find(|(n, _)| *n == name).map(|(_, c)| *c);
    for (legacy, canonical) in [("NoDataFoundError", "NotFoundError"), ("TimeoutError", "DeadlineExceededError")] {
        let legacy_cls = lookup(legacy).expect("legacy name is registered");
        let canonical_cls = lookup(canonical).expect("canonical name is registered");
        assert_eq!(legacy_cls, canonical_cls, "{legacy} must be the same class as {canonical}");
    }
    assert_eq!(reg.len(), 15);
}

#[test]
fn python_and_c_agree_on_failure_classes() {
    assert_eq!(code_of_class(PyErrorClass::RateLimitError), THETADATADX_ERR_RATE_LIMIT);
    assert_eq!(code_of_class(PyErrorClass::InvalidParameterError), THETADATADX_ERR_INVALID_PARAMETER);
    let raised = to_py_err(SdkError {
        kind: SdkErrorKind::Grpc(GrpcStatusKind::ResourceExhausted),
        message: b"429 Too Many Requests".to_vec(),
        retry_after_ms: Some(1500),
    });
    assert_eq!(raised.class, PyErrorClass::RateLimitError);
    assert_eq!(raised.message, b"429 Too Many Requests".to_vec());
    assert_eq!(legacy_to_py_err(LegacySdkError::Auth(b"denied".to_vec())), (BuiltinPyClass::ConnectionError, b"denied".to_vec()));
    assert_eq!(legacy_to_py_err(LegacySdkError::Config(b"bad".to_vec())).0, BuiltinPyClass::ValueError);
    assert_eq!(legacy_to_py_err(LegacySdkError::Other(b"x".to_vec())).0, BuiltinPyClass::RuntimeError);
}

#[test]
fn guard_marks_thread_and_nests() {
    let mut depth = DeliveryDepth::new();
    assert!(!depth.in_delivery_handler_thread());
    depth.enter();
    assert!(depth.in_delivery_handler_thread());
    {
        depth.enter();
        assert!(depth.in_delivery_handler_thread());
        depth.exit();
    }
    assert!(depth.in_delivery_handler_thread());
    depth.exit();
    assert!(!depth.in_delivery_handler_thread());
    depth.exit();
    assert!(!depth.in_delivery_handler_thread());
}

#[test]
fn fpss_client_outer_panic_flips_health_checks_to_failed_immediately() {
    let mut slot: DispatcherSession<()> = idle_session();
    install_running(&mut slot, (), 11);
    assert_eq!(streaming_status(true, &slot), 1);
    assert_eq!(authenticated_status(Some(true), &slot), 1);
    publish_failed_if_current(&mut slot, 12, b"not the dispatcher".to_vec());
    assert_eq!(streaming_status(true, &slot), 1);
    publish_failed_if_current(&mut slot, 11, b"boom".to_vec());
    assert_eq!(streaming_status(true, &slot), 0);
    assert_eq!(authenticated_status(Some(true), &slot), 0);
}

#[test]
fn credentials_need_exactly_one_source() {
    let none = resolve_credentials::<u8>(None, None, None, None).err().unwrap();
    assert_eq!(none.class, PyErrorClass::ConfigError);
    assert_eq!(
        String::from_utf8(none.message).unwrap(),
        "no authentication argument given — pass api_key=..., the email=... and password=... pair, or credentials=..."
    );
    let both = resolve_credentials::<u8>(Some(1), Some("k".into()), None, None).err().unwrap();
    assert_eq!(
        String::from_utf8(both.message).unwrap(),
        "conflicting authentication arguments — pass exactly one of api_key, the email/password pair, or credentials"
    );
    let half = resolve_credentials::<u8>(None, None, Some("a@b".into()), None).err().unwrap();
    assert_eq!(String::from_utf8(half.message).unwrap(), "email/password authentication needs both email= and password=");
    assert!(matches!(resolve_credentials::<u8>(None, Some("k".into()), None, None), Ok(CredentialChoice::ApiKey(k)) if k == "k"));
    assert!(matches!(
        resolve_credentials::<u8>(None, None, Some("a@b".into()), Some("pw".into())),
        Ok(CredentialChoice::EmailPassword { .. })
    ));
    assert!(matches!(resolve_credentials::<u8>(Some(9), None, None, None), Ok(CredentialChoice::Handle(9))));
}

#[test]
fn environment_selectors() {
    let ok = apply_env_overrides::<u8, u8>(
        Some(EnvSelector { raw: "stage".into(), parsed: Some(2) }),
        None,
    )
    .ok()
    .unwrap();
    assert_eq!(ok, (Some(2), None));
    let bad = apply_env_overrides::<u8, u8>(
        Some(EnvSelector { raw: "qa".into(), parsed: None }),
        Some(EnvSelector { raw: "moon".into(), parsed: None }),
    )
    .err()
    .unwrap();
    assert_eq!(bad.class, PyErrorClass::InvalidParameterError);
    assert_eq!(
        String::from_utf8(bad.message).unwrap(),
        "market_data_type must be \"PROD\" or \"STAGE\" (case-insensitive); got \"qa\""
    );
    let bad = apply_env_overrides::<u8, u8>(None, Some(EnvSelector { raw: "moon".into(), parsed: None })).err().unwrap();
    assert_eq!(
        String::from_utf8(bad.message).unwrap(),
        "streaming_type must be \"PROD\" or \"DEV\" (case-insensitive); got \"moon\""
    );
}

#[test]
fn reconnect_policy_settings() {
    assert_eq!(parse_reconnect_policy("MANUAL").ok(), Some(ReconnectPolicyKind::Manual));
    assert_eq!(parse_reconnect_policy("Auto").ok(), Some(ReconnectPolicyKind::Auto));
    let e = parse_reconnect_policy("Sometimes").err().unwrap();
    assert_eq!(e.class, PyErrorClass::InvalidParameterError);
    assert_eq!(
        String::from_utf8(e.message).unwrap(),
        "unknown reconnect_policy: \"sometimes\" (expected \"auto\" or \"manual\")"
    );
    assert_eq!(reconnect_policy_label(ReconnectPolicyKind::Custom), "custom");
    assert_eq!(reconnect_policy_label(ReconnectPolicyKind::Auto), "auto");
    assert_eq!(reconnect_callback_policy(false, false).ok(), Some(ReconnectPolicyKind::Auto));
    assert_eq!(reconnect_callback_policy(true, true).ok(), Some(ReconnectPolicyKind::Custom));
    let e = reconnect_callback_policy(true, false).err().unwrap();
    assert_eq!(String::from_utf8(e.message).unwrap(), "reconnect_callback must be callable");
    assert_eq!(custom_reconnect_delay(CallbackReply::Millis(250)), Some(250));
    assert_eq!(custom_reconnect_delay(CallbackReply::NoneReturned), None);
    assert_eq!(custom_reconnect_delay(CallbackReply::Raised), None);
    assert_eq!(custom_reconnect_delay(CallbackReply::NotAnInteger), None);
}

#[test]
fn streaming_client_start_stop_and_superseded_starts() {
    let mut slots = PyStreamSlots::new();
    assert!(slots.reserve(1).is_ok());
    assert_eq!(
        runtime_message(slots.reserve(2).err().unwrap()),
        "streaming already started -- call stop_streaming() before start_streaming() again"
    );
    // A stop while the first start is still connecting wins.
    slots.stop();
    assert_eq!(runtime_message(slots.after_connect(1, Ok(())).err().unwrap()), "streaming start superseded by a concurrent stop/start");
    assert!(!slots.client_live);
    // A newer start keeps its reservation when an older one fails.
    assert!(slots.reserve(3).is_ok());
    let e = SdkError { kind: SdkErrorKind::Transport, message: b"down".to_vec(), retry_after_ms: None };
    assert!(matches!(slots.after_connect(1, Err(e)), Err(PyStreamError::Sdk(_))));
    assert_eq!(slots.callback, Some(3));
    assert!(slots.after_connect(3, Ok(())).is_ok());
    assert!(slots.client_live);
    assert!(slots.after_spawn(3, Ok(())).is_ok());
    assert!(slots.check_reconnect().is_ok());
    slots.stop();
    assert_eq!(
        runtime_message(slots.check_reconnect().err().unwrap()),
        "no callback registered -- call start_streaming(callback) before reconnect()"
    );
    assert!(slots.reserve(4).is_ok());
    assert!(slots.after_connect(4, Ok(())).is_ok());
    assert_eq!(
        runtime_message(slots.after_spawn(4, Err(b"EAGAIN".to_vec())).err().unwrap()),
        "failed to spawn streaming dispatcher thread: EAGAIN"
    );
    assert_eq!(slots, PyStreamSlots { client_live: false, callback: None });
    let half = PyStreamSlots { client_live: false, callback: Some(5) };
    assert_eq!(
        runtime_message(half.check_reconnect().err().unwrap()),
        "streaming not started -- call start_streaming(callback) first"
    );
}

#[test]
fn async_client_routes_attributes() {
    assert_eq!(route_async_attr("stock_history_eod_async"), (AsyncRoute::MarketData, None));
    assert_eq!(route_async_attr("subscribe"), (AsyncRoute::Stream, None));
    assert_eq!(route_async_attr("streaming"), (AsyncRoute::Client, None));
    assert_eq!(route_async_attr("flat_files"), (AsyncRoute::Client, None));
    let (route, msg) = route_async_attr("stock_history_eod");
    assert_eq!(route, AsyncRoute::Refused);
    assert_eq!(
        String::from_utf8(msg.unwrap()).unwrap(),
        "AsyncClient surfaces only `*_async` market-data methods plus streaming lifecycle helpers; `stock_history_eod` is not on the async surface. Use `Client` for the synchronous market-data methods."
    );
}

#[test]
fn subscription_labels_and_reprs() {
    let quote = Subscription::Contract { contract: ContractSpec::Stock("AAPL".into()), kind: SubscriptionKind::Quote };
    assert_eq!(subscription_label(&quote), "quote");
    assert_eq!(kind_label(SubscriptionKind::OpenInterest), "open_interest");
    assert_eq!(subscription_repr(&quote, b"AAPL"), b"Subscription(Quote, AAPL)".to_vec());
    let full = Subscription::Full { sec_type: SecType::Option, kind: FullSubscriptionKind::Trades };
    assert_eq!(subscription_label(&full), "full_trades");
    assert_eq!(subscription_repr(&full, b""), b"Subscription(full Trades, Option)".to_vec());
    assert_eq!(sec_type_repr(SecType::Rate), b"SecType.RATE".to_vec());
    assert_eq!(sec_type_name(SecType::Index), "INDEX");
    assert_eq!(right_label(Some(true)), Some("C"));
    assert_eq!(right_label(Some(false)), Some("P"));
    assert_eq!(right_label(None), None);
}

#[test]
fn full_subscription_snapshot_drops_per_contract_only_kinds() {
    let rows = vec![
        (SubscriptionKind::Trade, SecType::Option),
        (SubscriptionKind::Quote, SecType::Stock),
        (SubscriptionKind::OpenInterest, SecType::Index),
        (SubscriptionKind::MarketValue, SecType::Stock),
    ];
    let subs = full_subscriptions(&rows);
    assert_eq!(subs.len(), 2);
    assert!(matches!(subs[0], Subscription::Full { sec_type: SecType::Option, kind: FullSubscriptionKind::Trades }));
    assert!(matches!(subs[1], Subscription::Full { sec_type: SecType::Index, kind: FullSubscriptionKind::OpenInterest }));
}

#[test]
fn active_subscription_entries_for_the_c_abi() {
    let subs = vec![(SubscriptionKind::Quote, b"SPY".to_vec()), (SubscriptionKind::MarketValue, b"AAPL".to_vec())];
    let entries = contract_entries(&subs);
    assert_eq!(entries.len(), 2);
    assert_eq!((entries[0].kind.clone(), entries[0].contract.clone()), (b"quote".to_vec(), b"SPY".to_vec()));
    assert_eq!(entries[1].kind, b"market_value".to_vec());
    let full = full_entries(&vec![(SubscriptionKind::Quote, SecType::Stock), (SubscriptionKind::Trade, SecType::Option)]);
    assert_eq!(full.len(), 1);
    assert_eq!((full[0].kind.clone(), full[0].contract.clone()), (b"full_trades".to_vec(), b"Option".to_vec()));
    let mut slot = LastError::new();
    assert!(check_subscription_entries(&mut slot, &entries));
    assert!(slot.message().is_none());
    let bad = contract_entries(&vec![(SubscriptionKind::Trade, b"S\0PY".to_vec())]);
    assert!(!check_subscription_entries(&mut slot, &bad));
    assert_eq!(slot.message().cloned(), Some(b"subscription contract contains null byte".to_vec()));
}

#[test]
fn rate_limit_carries_retry_after_attribute() {
    // With a back-off hint the rate-limit exception carries it.
    let with_hint = SdkError {
        kind: SdkErrorKind::Grpc(GrpcStatusKind::ResourceExhausted),
        message: b"429".to_vec(),
        retry_after_ms: Some(1500),
    };
    assert_eq!(py_error_class_for(&with_hint.kind), PyErrorClass::RateLimitError);
    assert_eq!(py_retry_after_ms(&with_hint), Some(Some(1500)));

    // Without a hint the attribute is present and None.
    let without = SdkError {
        kind: SdkErrorKind::Grpc(GrpcStatusKind::ResourceExhausted),
        message: b"429".to_vec(),
        retry_after_ms: None,
    };
    assert_eq!(py_retry_after_ms(&without), Some(None));
}

#[test]
fn only_rate_limits_carry_a_retry_hint() {
    let stream_limit = SdkError {
        kind: SdkErrorKind::Stream(StreamErrorKind::TooManyRequests),
        message: b"slow down".to_vec(),
        retry_after_ms: Some(250),
    };
    assert_eq!(py_retry_after_ms(&stream_limit), Some(Some(250)));
    let not_found = SdkError {
        kind: SdkErrorKind::Grpc(GrpcStatusKind::NotFound),
        message: b"missing".to_vec(),
        retry_after_ms: Some(100),
    };
    assert_eq!(py_retry_after_ms(&not_found), None);
}

#[test]
fn unknown_streaming_selector_is_a_rejected_argument() {
    let bad = apply_env_overrides::<u8, u8>(
        None,
        Some(EnvSelector { raw: "moon".into(), parsed: None }),
    )
    .err()
    .unwrap();
    assert_eq!(bad.class, PyErrorClass::InvalidParameterError);
    assert_eq!(
        String::from_utf8(bad.message).unwrap(),
        "streaming_type must be \"PROD\" or \"DEV\" (case-insensitive); got \"moon\""
    );
}

#[test]
fn stop_streaming_clears_subscriptions_and_callback() {
    let mut slots = PyStreamSlots::new();
    assert!(slots.active_subscriptions(Some(vec![1u8, 2])).is_empty());
    assert!(slots.reserve(7).is_ok());
    assert!(slots.after_connect(7, Ok(())).is_ok());
    assert_eq!(slots.active_subscriptions(Some(vec![1u8, 2])), vec![1u8, 2]);
    slots.stop();
    assert!(!slots.client_live);
    assert!(slots.active_subscriptions(Some(vec![1u8, 2])).is_empty());
    assert_eq!(
        runtime_message(slots.check_reconnect().err().unwrap()),
        "no callback registered -- call start_streaming(callback) before reconnect()"
    );
    let before = slots;
    slots.stop();
    assert_eq!(slots, before);
}
