//! Callback registration and subscription calls on the two C handles.
//!
//! As with reconnect, the binding layer performs the work (starting a
//! session, spawning a dispatcher, calling the SDK) and these functions
//! make the decisions around it and record every refusal in the thread's
//! error slot.

use vstd::prelude::*;
use crate::error_slot::{after_set_error, set_error, set_error_from, LastError, LastErrorView};
use crate::lifecycle::{
    already_installed_message, reject_if_not_fresh, terminal_message, unknown_state_message,
    STREAM_STATE_ACTIVE, STREAM_STATE_FRESH, STREAM_STATE_SHUTDOWN,
};
use crate::reconnect::{
    after_sdk_error, report_spawn_failure, spawn_failed_message, stream_handle_null_message,
    unified_handle_null_message,
};
use crate::sdk_error::SdkError;
use crate::subscription::{coerce_post, coerce_subscription, spec_coerce, Subscription, SubscriptionRequest};
use crate::text::utf8;

verus! {

pub open spec fn null_callback_message() -> Seq<u8> {
    utf8("callback function pointer is null")
}

pub open spec fn already_started_message() -> Seq<u8> {
    utf8("streaming already started")
}

pub open spec fn client_not_started_message() -> Seq<u8> {
    utf8("streaming client not started -- call thetadatadx_streaming_set_callback first, or has been shut down")
}

/// The slot after a call into the SDK: untouched on success, the SDK
/// failure otherwise.
pub open spec fn after_sdk_result(r: Result<(), SdkError>, before: LastErrorView) -> LastErrorView {
    match r {
        Ok(()) => before,
        Err(e) => after_sdk_error(e),
    }
}

/// The C status of a call into the SDK: `0` on success; on failure the
/// SDK error is recorded and `-1` returned.
pub fn sdk_call_status(slot: &mut LastError, r: Result<(), SdkError>) -> (code: i32)
    ensures
        code == (if r is Ok { 0i32 } else { -1i32 }),
        final(slot)@ == after_sdk_result(r, old(slot)@),
{
    match r {
        Ok(()) => 0,
        Err(e) => {
            set_error_from(slot, &e);
            -1
        },
    }
}

// ── unified client ──────────────────────────────────────────────────────

/// Work the binding layer performs while registering a callback on the
/// unified client.
#[derive(Clone, Copy, Debug, PartialEq, Eq, Structural)]
pub enum ClientRegistrationAction {
    /// Store the registration, then start streaming bound to it.
    StoreAndStart,
    /// Clear the stored registration (the start failed) and return `-1`.
    ForgetAndFail,
    /// Return this code to the C caller.
    Return(i32),
}

/// What the binding layer observed.
pub enum ClientRegistrationEvent {
    /// The call arrived: whether the handle and callback pointers were
    /// non-null and whether a session is already streaming.
    Requested { handle_present: bool, callback_present: bool, streaming: bool },
    /// Streaming started, or failed to.
    Started(Result<(), SdkError>),
}

pub open spec fn spec_client_registration_action(e: ClientRegistrationEvent) -> ClientRegistrationAction {
    match e {
        ClientRegistrationEvent::Requested { handle_present, callback_present, streaming } =>
            if !handle_present || !callback_present || streaming {
                ClientRegistrationAction::Return(-1i32)
            } else {
                ClientRegistrationAction::StoreAndStart
            },
        ClientRegistrationEvent::Started(r) =>
            if r is Ok { ClientRegistrationAction::Return(0i32) } else { ClientRegistrationAction::ForgetAndFail },
    }
}

pub open spec fn spec_client_registration_error(e: ClientRegistrationEvent) -> Option<LastErrorView> {
    match e {
        ClientRegistrationEvent::Requested { handle_present, callback_present, streaming } =>
            if !handle_present {
                Some(after_set_error(unified_handle_null_message()))
            } else if !callback_present {
                Some(after_set_error(null_callback_message()))
            } else if streaming {
                Some(after_set_error(already_started_message()))
            } else {
                None
            },
        ClientRegistrationEvent::Started(Err(err)) => Some(after_sdk_error(err)),
        _ => None,
    }
}

/// One step of `thetadatadx_client_set_callback`. A registration is
/// refused while a session is live (replacement is allowed only after a
/// stop); otherwise it is stored before streaming starts and forgotten
/// again when the start fails.
pub fn client_registration_step(slot: &mut LastError, event: ClientRegistrationEvent) -> (action: ClientRegistrationAction)
    ensures
        action == spec_client_registration_action(event),
        match spec_client_registration_error(event) {
            Some(v) => final(slot)@ == v,
            None => final(slot)@ == old(slot)@,
        },
{
    match event {
        ClientRegistrationEvent::Requested { handle_present, callback_present, streaming } => {
            if !handle_present {
                set_error(slot, "unified handle is null".as_bytes());
                ClientRegistrationAction::Return(-1)
            } else if !callback_present {
                set_error(slot, "callback function pointer is null".as_bytes());
                ClientRegistrationAction::Return(-1)
            } else if streaming {
                set_error(slot, "streaming already started".as_bytes());
                ClientRegistrationAction::Return(-1)
            } else {
                ClientRegistrationAction::StoreAndStart
            }
        },
        ClientRegistrationEvent::Started(r) => match r {
            Ok(()) => ClientRegistrationAction::Return(0),
            Err(err) => {
                set_error_from(slot, &err);
                ClientRegistrationAction::ForgetAndFail
            },
        },
    }
}

// ── standalone streaming handle ─────────────────────────────────────────

/// Work the binding layer performs while registering the one callback of
/// a streaming handle.
#[derive(Clone, Copy, Debug, PartialEq, Eq, Structural)]
pub enum StreamRegistrationAction {
    /// Under the client lock: check the client slot is empty and build a
    /// client from the saved connect parameters.
    BuildClient,
    /// Publish the client and the registration, move the state to
    /// `ACTIVE`, then spawn the dispatcher.
    PublishAndSpawn,
    /// Install the running dispatcher session and return `0`.
    InstallSession,
    /// Return this code to the C caller.
    Return(i32),
}

/// What the binding layer observed.
pub enum StreamRegistrationEvent {
    /// The call arrived: whether the handle and callback pointers were
    /// non-null, and the lifecycle state under the dispatcher lock.
    Requested { handle_present: bool, callback_present: bool, state: u8 },
    /// The client slot already held a client.
    SlotOccupied,
    /// The client was built.
    ClientBuilt,
    /// Building the client failed.
    BuildFailed(SdkError),
    /// The dispatcher runs.
    DispatcherSpawned,
    /// The dispatcher could not be spawned; the publication (client,
    /// registration, `ACTIVE` state) was rolled back. Carries the rendered
    /// OS error.
    SpawnFailed { reason: Vec<u8> },
}

pub open spec fn spec_stream_registration_action(e: StreamRegistrationEvent) -> StreamRegistrationAction {
    match e {
        StreamRegistrationEvent::Requested { handle_present, callback_present, state } =>
            if !handle_present || !callback_present || state != STREAM_STATE_FRESH {
                StreamRegistrationAction::Return(-1i32)
            } else {
                StreamRegistrationAction::BuildClient
            },
        StreamRegistrationEvent::SlotOccupied => StreamRegistrationAction::Return(-1i32),
        StreamRegistrationEvent::ClientBuilt => StreamRegistrationAction::PublishAndSpawn,
        StreamRegistrationEvent::BuildFailed(_) => StreamRegistrationAction::Return(-1i32),
        StreamRegistrationEvent::DispatcherSpawned => StreamRegistrationAction::InstallSession,
        StreamRegistrationEvent::SpawnFailed { .. } => StreamRegistrationAction::Return(-1i32),
    }
}

/// The refusal a lifecycle state gives a registration, if any.
pub open spec fn registration_refusal(state: u8) -> Option<LastErrorView> {
    if state == STREAM_STATE_FRESH {
        None
    } else if state == STREAM_STATE_ACTIVE {
        Some(after_set_error(already_installed_message()))
    } else if state == STREAM_STATE_SHUTDOWN {
        Some(after_set_error(terminal_message()))
    } else {
        Some(after_set_error(unknown_state_message()))
    }
}

pub open spec fn spec_stream_registration_error(e: StreamRegistrationEvent) -> Option<LastErrorView> {
    match e {
        StreamRegistrationEvent::Requested { handle_present, callback_present, state } =>
            if !handle_present {
                Some(after_set_error(stream_handle_null_message()))
            } else if !callback_present {
                Some(after_set_error(null_callback_message()))
            } else {
                registration_refusal(state)
            },
        StreamRegistrationEvent::SlotOccupied => Some(after_set_error(already_installed_message())),
        StreamRegistrationEvent::BuildFailed(err) => Some(after_sdk_error(err)),
        StreamRegistrationEvent::SpawnFailed { reason } => Some(after_set_error(spawn_failed_message(reason@))),
        _ => None,
    }
}

/// One step of `thetadatadx_streaming_set_callback`: null pointers are
/// refused, the lifecycle check admits only a fresh handle, an occupied
/// client slot is refused as a second registration, and a build or spawn
/// failure is reported.
pub fn stream_registration_step(slot: &mut LastError, event: StreamRegistrationEvent) -> (action: StreamRegistrationAction)
    ensures
        action == spec_stream_registration_action(event),
        match spec_stream_registration_error(event) {
            Some(v) => final(slot)@ == v,
            None => final(slot)@ == old(slot)@,
        },
{
    match event {
        StreamRegistrationEvent::Requested { handle_present, callback_present, state } => {
            if !handle_present {
                set_error(slot, "streaming handle is null".as_bytes());
                StreamRegistrationAction::Return(-1)
            } else if !callback_present {
                set_error(slot, "callback function pointer is null".as_bytes());
                StreamRegistrationAction::Return(-1)
            } else if reject_if_not_fresh(slot, state) {
                StreamRegistrationAction::BuildClient
            } else {
                StreamRegistrationAction::Return(-1)
            }
        },
        StreamRegistrationEvent::SlotOccupied => {
            set_error(
                slot,
                "streaming callback already installed -- only one set_callback call is permitted per handle".as_bytes(),
            );
            StreamRegistrationAction::Return(-1)
        },
        StreamRegistrationEvent::ClientBuilt => StreamRegistrationAction::PublishAndSpawn,
        StreamRegistrationEvent::BuildFailed(err) => {
            set_error_from(slot, &err);
            StreamRegistrationAction::Return(-1)
        },
        StreamRegistrationEvent::DispatcherSpawned => StreamRegistrationAction::InstallSession,
        StreamRegistrationEvent::SpawnFailed { reason } => {
            report_spawn_failure(slot, reason.as_slice());
            StreamRegistrationAction::Return(-1)
        },
    }
}

// ── subscribe / unsubscribe ─────────────────────────────────────────────

/// Which handle a subscription call arrived on.
#[derive(Clone, Copy, Debug, PartialEq, Eq, Structural)]
pub enum HandleKind {
    Unified,
    Streaming,
}

/// The first refusal of a subscription call, in the order the checks run:
/// the handle pointer, then the request, then (on a streaming handle) the
/// live client.
pub open spec fn subscription_call_post(
    kind: HandleKind,
    handle_present: bool,
    client_live: bool,
    req: Option<SubscriptionRequest>,
    out: Option<Subscription>,
    before: LastErrorView,
    after: LastErrorView,
) -> bool {
    if !handle_present {
        out is None && after == after_set_error(
            if kind == HandleKind::Unified { unified_handle_null_message() } else { stream_handle_null_message() },
        )
    } else if spec_coerce(req) is Err || kind == HandleKind::Unified || client_live {
        coerce_post(spec_coerce(req), out, before, after)
    } else {
        out is None && after == after_set_error(client_not_started_message())
    }
}

/// Validate a subscribe or unsubscribe call before it reaches the SDK:
/// returns the subscription to hand over, or `None` with the refusal
/// recorded. `client_live` matters only on a streaming handle, whose
/// client exists only between registration and shutdown.
pub fn prepare_subscription_call(
    slot: &mut LastError,
    kind: HandleKind,
    handle_present: bool,
    client_live: bool,
    req: Option<SubscriptionRequest>,
) -> (out: Option<Subscription>)
    ensures
        subscription_call_post(kind, handle_present, client_live, req, out, old(slot)@, final(slot)@),
{
    if !handle_present {
        match kind {
            HandleKind::Unified => set_error(slot, "unified handle is null".as_bytes()),
            HandleKind::Streaming => set_error(slot, "streaming handle is null".as_bytes()),
        }
        return None;
    }
    let sub = coerce_subscription(slot, req);
    match sub {
        None => None,
        Some(s) => {
            if kind == HandleKind::Streaming && !client_live {
                set_error(
                    slot,
                    "streaming client not started -- call thetadatadx_streaming_set_callback first, or has been shut down".as_bytes(),
                );
                None
            } else {
                Some(s)
            }
        },
    }
}

} // verus!
