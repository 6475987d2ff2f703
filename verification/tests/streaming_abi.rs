use thetadatadx_ffi_core::codes::{THETADATADX_ERR_INVALID_PARAMETER, THETADATADX_ERR_NONE, THETADATADX_ERR_OTHER};
use thetadatadx_ffi_core::cstr::CStrArg;
use thetadatadx_ffi_core::dispatcher::{
    authenticated_status, downcast_ffi_panic_payload, downcast_py_panic_payload, exit_failure_reason,
    extract_dispatcher_session, idle_session, install_running, is_failed, plan_join, publish_failed_if_current,
    record_join_panic, streaming_status, DispatcherExit, DispatcherSession, JoinPlan, PanicPayload,
};
use thetadatadx_ffi_core::error_slot::{set_error, LastError};
use thetadatadx_ffi_core::lifecycle::{
    call_succeeds, reject_if_not_fresh, reject_if_shutdown, state_after, LifecycleCall, STREAM_STATE_ACTIVE,
    STREAM_STATE_FRESH, STREAM_STATE_SHUTDOWN,
};
use thetadatadx_ffi_core::registration::{
    client_registration_step, prepare_subscription_call, sdk_call_status, stream_registration_step,
    ClientRegistrationAction, ClientRegistrationEvent, HandleKind, StreamRegistrationAction, StreamRegistrationEvent,
};
use thetadatadx_ffi_core::sdk_error::{GrpcStatusKind, SdkError, SdkErrorKind};
use thetadatadx_ffi_core::status::millis_since_last_event_reading;
use thetadatadx_ffi_core::subscription::{
    coerce_subscription, ContractSpec, SecType, Subscription, SubscriptionKind, SubscriptionRequest,
    THETADATADX_SUB_KIND_MARKET_VALUE, THETADATADX_SUB_KIND_QUOTE, THETADATADX_SUB_KIND_TRADE,
    THETADATADX_SUB_SCOPE_CONTRACT, THETADATADX_SUB_SCOPE_FULL,
};

fn last_error(slot: &LastError) -> Option<String> {
    slot.message().map(|m| String::from_utf8(m.clone()).unwrap())
}

fn text(s: &str) -> CStrArg {
    CStrArg::Text(s.to_string())
}

fn contract_request(symbol: &str, sec_type: CStrArg) -> SubscriptionRequest {
    SubscriptionRequest {
        scope: THETADATADX_SUB_SCOPE_CONTRACT,
        kind: THETADATADX_SUB_KIND_QUOTE,
        symbol: text(symbol),
        expiration: CStrArg::Null,
        strike: CStrArg::Null,
        right: CStrArg::Null,
        sec_type,
    }
}

#[test]
fn null_callback_is_the_none_niche_the_guard_rejects() {
    let mut slot = LastError::new();
    let action = stream_registration_step(
        &mut slot,
        StreamRegistrationEvent::Requested { handle_present: true, callback_present: false, state: STREAM_STATE_FRESH },
    );
    assert_eq!(action, StreamRegistrationAction::Return(-1));
    assert_eq!(last_error(&slot).as_deref(), Some("callback function pointer is null"));
    let action = stream_registration_step(
        &mut slot,
        StreamRegistrationEvent::Requested { handle_present: true, callback_present: true, state: STREAM_STATE_FRESH },
    );
    assert_eq!(action, StreamRegistrationAction::BuildClient);
}

#[test]
fn unified_set_callback_rejects_null_handle() {
    let mut slot = LastError::new();
    let action = client_registration_step(
        &mut slot,
        ClientRegistrationEvent::Requested { handle_present: false, callback_present: true, streaming: false },
    );
    assert_eq!(action, ClientRegistrationAction::Return(-1), "null handle must return -1");
    assert_eq!(last_error(&slot).as_deref(), Some("unified handle is null"));
}

#[test]
fn unified_set_callback_rejects_null_callback_before_install() {
    let mut slot = LastError::new();
    let action = client_registration_step(
        &mut slot,
        ClientRegistrationEvent::Requested { handle_present: true, callback_present: false, streaming: true },
    );
    assert_eq!(action, ClientRegistrationAction::Return(-1), "null callback must return -1");
    assert_eq!(last_error(&slot).as_deref(), Some("callback function pointer is null"));
}

#[test]
fn unified_already_streaming_contract_string_is_stable() {
    let mut slot = LastError::new();
    let action = client_registration_step(
        &mut slot,
        ClientRegistrationEvent::Requested { handle_present: true, callback_present: true, streaming: true },
    );
    assert_eq!(action, ClientRegistrationAction::Return(-1));
    assert_eq!(last_error(&slot).as_deref(), Some("streaming already started"));
    let mut other = LastError::new();
    set_error(&mut other, "streaming already started".as_bytes());
    assert_eq!(last_error(&other).as_deref(), Some("streaming already started"));
}

#[test]
fn unified_registration_rolls_back_on_failed_start() {
    let mut slot = LastError::new();
    assert_eq!(
        client_registration_step(
            &mut slot,
            ClientRegistrationEvent::Requested { handle_present: true, callback_present: true, streaming: false },
        ),
        ClientRegistrationAction::StoreAndStart
    );
    assert_eq!(slot.code(), THETADATADX_ERR_NONE);
    let e = SdkError { kind: SdkErrorKind::NoData, message: b"no data".to_vec(), retry_after_ms: None };
    assert_eq!(
        client_registration_step(&mut slot, ClientRegistrationEvent::Started(Err(e))),
        ClientRegistrationAction::ForgetAndFail
    );
    assert_eq!(last_error(&slot).as_deref(), Some("no data"));
    assert_eq!(
        client_registration_step(&mut slot, ClientRegistrationEvent::Started(Ok(()))),
        ClientRegistrationAction::Return(0)
    );
}

#[test]
fn coerce_subscription_honours_index_sec_type() {
    let mut slot = LastError::new();
    let sub = coerce_subscription(&mut slot, Some(contract_request("VIX", text("INDEX")))).expect("valid index contract");
    match sub {
        Subscription::Contract { contract: ContractSpec::Index(sym), kind } => {
            assert_eq!(sym, "VIX");
            assert_eq!(kind, SubscriptionKind::Quote);
        }
        _ => panic!("expected a per-contract index subscription"),
    }
}

#[test]
fn coerce_subscription_null_sec_type_defaults_to_stock() {
    let mut slot = LastError::new();
    let sub = coerce_subscription(&mut slot, Some(contract_request("AAPL", CStrArg::Null))).expect("valid stock contract");
    match sub {
        Subscription::Contract { contract: ContractSpec::Stock(sym), .. } => assert_eq!(sym, "AAPL"),
        _ => panic!("expected a per-contract stock subscription"),
    }
}

#[test]
fn coerce_subscription_rejects_unknown_sec_type_as_invalid_parameter() {
    let mut slot = LastError::new();
    let sub = coerce_subscription(&mut slot, Some(contract_request("AAPL", text("FUTURE"))));
    assert!(sub.is_none(), "an unknown sec_type must be rejected");
    assert_eq!(slot.code(), THETADATADX_ERR_INVALID_PARAMETER);
}

#[test]
fn coerce_subscription_refuses_null_request_and_bad_codes() {
    let mut slot = LastError::new();
    assert!(coerce_subscription(&mut slot, None).is_none());
    assert_eq!(last_error(&slot).as_deref(), Some("subscription request is null"));
    assert_eq!(slot.code(), THETADATADX_ERR_OTHER);

    let mut req = contract_request("AAPL", CStrArg::Null);
    req.scope = 7;
    assert!(coerce_subscription(&mut slot, Some(req)).is_none());
    assert_eq!(last_error(&slot).as_deref(), Some("invalid scope 7"));
    assert_eq!(slot.code(), THETADATADX_ERR_INVALID_PARAMETER);

    let mut req = contract_request("AAPL", CStrArg::Null);
    req.kind = -3;
    assert!(coerce_subscription(&mut slot, Some(req)).is_none());
    assert_eq!(last_error(&slot).as_deref(), Some("invalid kind -3"));
}

#[test]
fn coerce_full_subscription_uppercases_sec_type() {
    let mut slot = LastError::new();
    let req = SubscriptionRequest {
        scope: THETADATADX_SUB_SCOPE_FULL,
        kind: THETADATADX_SUB_KIND_TRADE,
        symbol: CStrArg::Null,
        expiration: CStrArg::Null,
        strike: CStrArg::Null,
        right: CStrArg::Null,
        sec_type: text("option"),
    };
    match coerce_subscription(&mut slot, Some(req)).expect("full trades") {
        Subscription::Full { sec_type, .. } => assert_eq!(sec_type, SecType::Option),
        _ => panic!("expected a full-stream subscription"),
    }
    let req = SubscriptionRequest {
        scope: THETADATADX_SUB_SCOPE_FULL,
        kind: THETADATADX_SUB_KIND_MARKET_VALUE,
        symbol: CStrArg::Null,
        expiration: CStrArg::Null,
        strike: CStrArg::Null,
        right: CStrArg::Null,
        sec_type: text("STOCK"),
    };
    assert!(coerce_subscription(&mut slot, Some(req)).is_none());
    assert_eq!(last_error(&slot).as_deref(), Some("full-stream MarketValue is not a valid subscription"));
    assert_eq!(slot.code(), THETADATADX_ERR_INVALID_PARAMETER);
}

#[test]
fn streaming_subscribe_needs_a_live_client() {
    let mut slot = LastError::new();
    let out = prepare_subscription_call(&mut slot, HandleKind::Streaming, true, false, Some(contract_request("AAPL", CStrArg::Null)));
    assert!(out.is_none());
    assert_eq!(
        last_error(&slot).as_deref(),
        Some("streaming client not started -- call thetadatadx_streaming_set_callback first, or has been shut down")
    );
    let mut slot = LastError::new();
    let out = prepare_subscription_call(&mut slot, HandleKind::Unified, true, false, Some(contract_request("AAPL", CStrArg::Null)));
    assert!(out.is_some());
    let out = prepare_subscription_call(&mut slot, HandleKind::Unified, false, true, Some(contract_request("AAPL", CStrArg::Null)));
    assert!(out.is_none());
    assert_eq!(last_error(&slot).as_deref(), Some("unified handle is null"));
    let e = SdkError { kind: SdkErrorKind::Grpc(GrpcStatusKind::PermissionDenied), message: b"denied".to_vec(), retry_after_ms: None };
    assert_eq!(sdk_call_status(&mut slot, Err(e)), -1);
    assert_eq!(last_error(&slot).as_deref(), Some("denied"));
    assert_eq!(sdk_call_status(&mut slot, Ok(())), 0);
}

#[test]
fn teardown_does_not_deadlock_when_callback_re_enters_the_dispatcher_lock() {
    // Teardown moves the session out of the slot first; the slot reads idle
    // while the join runs, and the join plan is decided on the extracted
    // session alone.
    let mut slot: DispatcherSession<&str> = idle_session();
    install_running(&mut slot, "join handle", 7);
    let taken = extract_dispatcher_session(&mut slot);
    assert!(matches!(slot, DispatcherSession::Idle));
    assert_eq!(streaming_status(true, &slot), 1);
    match plan_join(taken, 3) {
        JoinPlan::Join(h) => assert_eq!(h, "join handle"),
        _ => panic!("a teardown from another thread joins"),
    }
    let mut slot: DispatcherSession<&str> = idle_session();
    install_running(&mut slot, "join handle", 7);
    let taken = extract_dispatcher_session(&mut slot);
    assert!(matches!(plan_join(taken, 7), JoinPlan::Detach));
    assert!(matches!(plan_join(DispatcherSession::<&str>::Idle, 7), JoinPlan::Nothing));
}

#[test]
fn streaming_outer_panic_flips_health_checks_to_failed_immediately() {
    let mut slot: DispatcherSession<()> = idle_session();
    install_running(&mut slot, (), 42);
    assert_eq!(streaming_status(true, &slot), 1);
    assert_eq!(authenticated_status(Some(true), &slot), 1);

    publish_failed_if_current(&mut slot, 1, b"wrong-thread panic must not clobber".to_vec());
    assert_eq!(streaming_status(true, &slot), 1);

    publish_failed_if_current(&mut slot, 42, b"intentional outer-machinery panic".to_vec());
    assert_eq!(streaming_status(true, &slot), 0);
    assert_eq!(authenticated_status(Some(true), &slot), 0);
    assert!(is_failed(&slot));
}

#[test]
fn io_thread_fault_flips_health_checks_via_dispatcher_loop() {
    let mut slot: DispatcherSession<()> = idle_session();
    install_running(&mut slot, (), 9);
    assert_eq!(streaming_status(true, &slot), 1);
    let reason = exit_failure_reason(DispatcherExit::IoFault, Vec::new()).expect("an io fault publishes");
    assert_eq!(reason, b"fpss io thread terminated abnormally".to_vec());
    publish_failed_if_current(&mut slot, 9, reason);
    assert_eq!(streaming_status(true, &slot), 0);
    assert!(exit_failure_reason(DispatcherExit::Clean, Vec::new()).is_none());
    assert_eq!(exit_failure_reason(DispatcherExit::Panicked, b"boom".to_vec()), Some(b"boom".to_vec()));
}

#[test]
fn join_panic_is_recorded_only_over_an_idle_slot() {
    let mut slot: DispatcherSession<()> = idle_session();
    record_join_panic(&mut slot, b"old session".to_vec());
    assert!(is_failed(&slot));
    let mut slot: DispatcherSession<()> = idle_session();
    install_running(&mut slot, (), 5);
    record_join_panic(&mut slot, b"old session".to_vec());
    assert_eq!(streaming_status(true, &slot), 1);
}

#[test]
fn panic_payloads_render_their_text() {
    assert_eq!(downcast_ffi_panic_payload(PanicPayload::StaticStr("boom".to_string())), "boom");
    assert_eq!(downcast_ffi_panic_payload(PanicPayload::Owned("formatted 3".to_string())), "formatted 3");
    assert_eq!(
        downcast_ffi_panic_payload(PanicPayload::Other),
        "dispatcher panicked with non-string payload"
    );
    assert_eq!(downcast_py_panic_payload(PanicPayload::Other), "dispatcher panicked with non-string payload");
}

#[test]
fn lifecycle_is_one_shot_and_shutdown_is_terminal() {
    let mut slot = LastError::new();
    assert!(reject_if_not_fresh(&mut slot, STREAM_STATE_FRESH));
    assert!(!reject_if_not_fresh(&mut slot, STREAM_STATE_ACTIVE));
    assert_eq!(
        last_error(&slot).as_deref(),
        Some("streaming callback already installed -- only one set_callback call is permitted per handle")
    );
    assert!(!reject_if_not_fresh(&mut slot, STREAM_STATE_SHUTDOWN));
    assert_eq!(last_error(&slot).as_deref(), Some("streaming handle has already been shut down -- this is terminal"));
    assert!(!reject_if_not_fresh(&mut slot, 9));
    assert_eq!(last_error(&slot).as_deref(), Some("streaming handle in unknown lifecycle state -- refusing operation"));
    assert!(reject_if_shutdown(&mut slot, STREAM_STATE_ACTIVE));
    assert!(!reject_if_shutdown(&mut slot, STREAM_STATE_SHUTDOWN));

    // A fresh handle: register once, second register refused, shut down, nothing after.
    let calls = [
        LifecycleCall::SetCallback { opened: true },
        LifecycleCall::SetCallback { opened: true },
        LifecycleCall::Shutdown,
        LifecycleCall::Reconnect { opened: true },
        LifecycleCall::Shutdown,
    ];
    let mut state = STREAM_STATE_FRESH;
    let mut accepted = Vec::new();
    for call in calls {
        accepted.push(call_succeeds(state, call));
        state = state_after(state, call);
    }
    assert_eq!(accepted, vec![true, false, true, false, false]);
    assert_eq!(state, STREAM_STATE_SHUTDOWN);
    assert_eq!(state_after(STREAM_STATE_ACTIVE, LifecycleCall::Free), STREAM_STATE_SHUTDOWN);
}

#[test]
fn millis_since_last_event_out_parameter() {
    let mut slot = LastError::new();
    assert_eq!(millis_since_last_event_reading(&mut slot, true, Some(42)), (0, Some(42)));
    assert_eq!(millis_since_last_event_reading(&mut slot, true, None), (1, Some(0)));
    assert_eq!(slot.code(), THETADATADX_ERR_NONE);
    assert_eq!(millis_since_last_event_reading(&mut slot, false, Some(5)), (-1, None));
    assert_eq!(last_error(&slot).as_deref(), Some("handle or out-parameter pointer is null"));
}
