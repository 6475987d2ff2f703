use thetadatadx_ffi_core::codes::{THETADATADX_ERR_NETWORK, THETADATADX_ERR_OTHER};
use thetadatadx_ffi_core::error_slot::LastError;
use thetadatadx_ffi_core::lifecycle::{STREAM_STATE_ACTIVE, STREAM_STATE_SHUTDOWN};
use thetadatadx_ffi_core::reconnect::{
    client_reconnect_step, stream_reconnect_step, ClientReconnectAction, ClientReconnectEvent,
    StreamReconnectAction, StreamReconnectEvent,
};
use thetadatadx_ffi_core::sdk_error::{SdkError, SdkErrorKind};

const DRAIN_TIMEOUT: &str = "reconnect drain barrier timed out after 5s — previous callback is still in flight; refusing to bind the new session to the same ctx";

fn last_error(slot: &LastError) -> Option<String> {
    slot.message().map(|m| String::from_utf8(m.clone()).unwrap())
}

fn transport(msg: &str) -> SdkError {
    SdkError { kind: SdkErrorKind::Transport, message: msg.as_bytes().to_vec(), retry_after_ms: None }
}

#[test]
fn stream_reconnect_happy_path_with_live_client() {
    let mut slot = LastError::new();
    let steps = [
        (
            StreamReconnectEvent::Requested { handle_present: true, state: STREAM_STATE_ACTIVE, callback_registered: true },
            StreamReconnectAction::RetireOldSession,
        ),
        (StreamReconnectEvent::OldSessionRetired { had_client: true }, StreamReconnectAction::AwaitOldDrain),
        (StreamReconnectEvent::OldDrainFinished { in_time: true }, StreamReconnectAction::BuildClient),
        (StreamReconnectEvent::ClientBuilt { state_now: STREAM_STATE_ACTIVE }, StreamReconnectAction::PublishAndSpawn),
        (StreamReconnectEvent::DispatcherSpawned, StreamReconnectAction::RestoreSubscriptions),
        (StreamReconnectEvent::SubscriptionsRestored, StreamReconnectAction::Return(0)),
    ];
    for (event, expected) in steps {
        assert_eq!(stream_reconnect_step(&mut slot, event), expected);
    }
    assert!(last_error(&slot).is_none());
}

#[test]
fn stream_reconnect_without_old_client_skips_the_drain() {
    let mut slot = LastError::new();
    assert_eq!(
        stream_reconnect_step(&mut slot, StreamReconnectEvent::OldSessionRetired { had_client: false }),
        StreamReconnectAction::BuildClient
    );
}

#[test]
fn stream_reconnect_refusals_name_their_reason() {
    let mut slot = LastError::new();
    let action = stream_reconnect_step(
        &mut slot,
        StreamReconnectEvent::Requested { handle_present: false, state: STREAM_STATE_ACTIVE, callback_registered: true },
    );
    assert_eq!(action, StreamReconnectAction::Return(-1));
    assert_eq!(last_error(&slot).as_deref(), Some("streaming handle is null"));

    stream_reconnect_step(
        &mut slot,
        StreamReconnectEvent::Requested { handle_present: true, state: STREAM_STATE_SHUTDOWN, callback_registered: true },
    );
    assert_eq!(last_error(&slot).as_deref(), Some("streaming handle has already been shut down -- this is terminal"));

    stream_reconnect_step(
        &mut slot,
        StreamReconnectEvent::Requested { handle_present: true, state: STREAM_STATE_ACTIVE, callback_registered: false },
    );
    assert_eq!(
        last_error(&slot).as_deref(),
        Some("no callback registered -- call thetadatadx_streaming_set_callback before thetadatadx_streaming_reconnect")
    );

    assert_eq!(
        stream_reconnect_step(&mut slot, StreamReconnectEvent::OldDrainFinished { in_time: false }),
        StreamReconnectAction::Return(-1)
    );
    assert_eq!(last_error(&slot).as_deref(), Some(DRAIN_TIMEOUT));

    assert_eq!(
        stream_reconnect_step(&mut slot, StreamReconnectEvent::BuildFailed(transport("connection reset"))),
        StreamReconnectAction::Return(-1)
    );
    assert_eq!(last_error(&slot).as_deref(), Some("connection reset"));
    assert_eq!(slot.code(), THETADATADX_ERR_NETWORK);

    assert_eq!(
        stream_reconnect_step(&mut slot, StreamReconnectEvent::ClientBuilt { state_now: STREAM_STATE_SHUTDOWN }),
        StreamReconnectAction::DiscardNewClient
    );
    assert_eq!(
        last_error(&slot).as_deref(),
        Some("handle was shut down concurrently with reconnect -- the replacement session was discarded")
    );
    assert_eq!(
        stream_reconnect_step(&mut slot, StreamReconnectEvent::NewClientDiscarded),
        StreamReconnectAction::Return(-1)
    );

    assert_eq!(
        stream_reconnect_step(&mut slot, StreamReconnectEvent::SpawnFailed { reason: b"Resource temporarily unavailable".to_vec() }),
        StreamReconnectAction::Return(-1)
    );
    assert_eq!(
        last_error(&slot).as_deref(),
        Some("failed to spawn streaming dispatcher thread: Resource temporarily unavailable")
    );
    assert_eq!(slot.code(), THETADATADX_ERR_OTHER);
}

#[test]
fn client_reconnect_happy_path() {
    let mut slot = LastError::new();
    let steps = [
        (ClientReconnectEvent::Requested { handle_present: true }, ClientReconnectAction::SaveSubscriptions),
        (ClientReconnectEvent::SubscriptionsSaved(Ok(())), ClientReconnectAction::SaveFullSubscriptions),
        (ClientReconnectEvent::FullSubscriptionsSaved(Ok(())), ClientReconnectAction::LookUpCallback),
        (ClientReconnectEvent::CallbackLooked { registered: true }, ClientReconnectAction::StopStreaming),
        (ClientReconnectEvent::Stopped, ClientReconnectAction::AwaitDrain),
        (ClientReconnectEvent::DrainFinished { in_time: true }, ClientReconnectAction::StartStreaming),
        (ClientReconnectEvent::Started(Ok(())), ClientReconnectAction::RestoreSubscriptions),
        (ClientReconnectEvent::SubscriptionsRestored, ClientReconnectAction::Return(0)),
    ];
    for (event, expected) in steps {
        assert_eq!(client_reconnect_step(&mut slot, event), expected);
    }
    assert!(last_error(&slot).is_none());
}

#[test]
fn client_reconnect_refusals() {
    let mut slot = LastError::new();
    assert_eq!(
        client_reconnect_step(&mut slot, ClientReconnectEvent::Requested { handle_present: false }),
        ClientReconnectAction::Return(-1)
    );
    assert_eq!(last_error(&slot).as_deref(), Some("unified handle is null"));
    assert_eq!(
        client_reconnect_step(&mut slot, ClientReconnectEvent::SubscriptionsSaved(Err(transport("not streaming")))),
        ClientReconnectAction::Return(-1)
    );
    assert_eq!(last_error(&slot).as_deref(), Some("not streaming"));
    assert_eq!(
        client_reconnect_step(&mut slot, ClientReconnectEvent::CallbackLooked { registered: false }),
        ClientReconnectAction::Return(-1)
    );
    assert_eq!(
        last_error(&slot).as_deref(),
        Some("no callback registered -- call thetadatadx_client_set_callback before thetadatadx_client_reconnect")
    );
    assert_eq!(
        client_reconnect_step(&mut slot, ClientReconnectEvent::DrainFinished { in_time: false }),
        ClientReconnectAction::Return(-1)
    );
    assert_eq!(last_error(&slot).as_deref(), Some(DRAIN_TIMEOUT));
    assert_eq!(
        client_reconnect_step(&mut slot, ClientReconnectEvent::Started(Err(transport("refused")))),
        ClientReconnectAction::Return(-1)
    );
    assert_eq!(last_error(&slot).as_deref(), Some("refused"));
}
