//! The decisions of a reconnect, as step machines.
//!
//! A reconnect alternates work the binding layer does (retire the old
//! session, wait for its callback to drain, build and start a new one,
//! replay subscriptions) with decisions about whether to go on. The
//! binding layer performs each [`action`](StreamReconnectAction) and feeds
//! the outcome back as an event; the step functions record every refusal
//! in the thread's error slot and say what to do next.

use vstd::prelude::*;
use crate::error_slot::{
    after_set_error, set_error, set_error_from, LastError, LastErrorView,
};
use crate::error_slot::{spec_error_cstring, spec_slot_retry_after};
use crate::lifecycle::{terminal_message, STREAM_STATE_SHUTDOWN};
use crate::sdk_error::{spec_error_code, SdkError};
use crate::text::{concat, utf8};

verus! {

/// The slot after recording an SDK failure.
pub open spec fn after_sdk_error(e: SdkError) -> LastErrorView {
    LastErrorView {
        message: Some(spec_error_cstring(e.message@)),
        code: spec_error_code(e.kind),
        retry_after_ms: spec_slot_retry_after(e),
    }
}

pub open spec fn stream_handle_null_message() -> Seq<u8> {
    utf8("streaming handle is null")
}

pub open spec fn unified_handle_null_message() -> Seq<u8> {
    utf8("unified handle is null")
}

pub open spec fn stream_no_callback_message() -> Seq<u8> {
    utf8("no callback registered -- call thetadatadx_streaming_set_callback before thetadatadx_streaming_reconnect")
}

pub open spec fn client_no_callback_message() -> Seq<u8> {
    utf8("no callback registered -- call thetadatadx_client_set_callback before thetadatadx_client_reconnect")
}

pub open spec fn drain_timeout_message() -> Seq<u8> {
    utf8("reconnect drain barrier timed out after 5s — previous callback is still in flight; refusing to bind the new session to the same ctx")
}

pub open spec fn concurrent_shutdown_message() -> Seq<u8> {
    utf8("handle was shut down concurrently with reconnect -- the replacement session was discarded")
}

/// The message for a dispatcher thread that could not be spawned.
pub open spec fn spawn_failed_message(reason: Seq<u8>) -> Seq<u8> {
    utf8("failed to spawn streaming dispatcher thread: ") + reason
}

/// Record a failed dispatcher spawn.
pub fn report_spawn_failure(slot: &mut LastError, reason: &[u8])
    ensures
        final(slot)@ == after_set_error(spawn_failed_message(reason@)),
{
    let msg = concat("failed to spawn streaming dispatcher thread: ".as_bytes(), reason);
    set_error(slot, msg.as_slice());
}

// ── standalone streaming handle ─────────────────────────────────────────

/// Work the binding layer performs during a streaming-handle reconnect.
#[derive(Clone, Copy, Debug, PartialEq, Eq, Structural)]
pub enum StreamReconnectAction {
    /// Save the live client's subscriptions, take the client out, shut it
    /// down and join the old dispatcher.
    RetireOldSession,
    /// Wait (up to 5 s) for the old session's callback to drain.
    AwaitOldDrain,
    /// Build a replacement client from the saved connect parameters.
    BuildClient,
    /// Publish the new client and spawn its dispatcher.
    PublishAndSpawn,
    /// Shut down the just-built client, which must not be published.
    DiscardNewClient,
    /// Replay the saved subscriptions (best effort).
    RestoreSubscriptions,
    /// Return this code to the C caller.
    Return(i32),
}

/// What the binding layer observed.
pub enum StreamReconnectEvent {
    /// The call arrived: whether the handle pointer was non-null, the
    /// lifecycle state under the dispatcher lock, and whether a callback
    /// was ever registered.
    Requested { handle_present: bool, state: u8, callback_registered: bool },
    /// The old session is retired; says whether a client was live.
    OldSessionRetired { had_client: bool },
    /// The drain wait ended; says whether the old callback drained in time.
    OldDrainFinished { in_time: bool },
    /// The replacement client was built; carries the lifecycle state seen
    /// after re-acquiring the dispatcher lock.
    ClientBuilt { state_now: u8 },
    /// Building the replacement failed.
    BuildFailed(SdkError),
    /// The dispatcher thread runs.
    DispatcherSpawned,
    /// The dispatcher thread could not be spawned (publication was rolled
    /// back); carries the rendered OS error.
    SpawnFailed { reason: Vec<u8> },
    /// The subscription replay finished, whatever its outcome.
    SubscriptionsRestored,
    /// The replacement client was shut down.
    NewClientDiscarded,
}

/// The action each event leads to.
pub open spec fn spec_stream_reconnect_action(e: StreamReconnectEvent) -> StreamReconnectAction {
    match e {
        StreamReconnectEvent::Requested { handle_present, state, callback_registered } =>
            if !handle_present || state == STREAM_STATE_SHUTDOWN || !callback_registered {
                StreamReconnectAction::Return(-1i32)
            } else {
                StreamReconnectAction::RetireOldSession
            },
        StreamReconnectEvent::OldSessionRetired { had_client } =>
            if had_client { StreamReconnectAction::AwaitOldDrain } else { StreamReconnectAction::BuildClient },
        StreamReconnectEvent::OldDrainFinished { in_time } =>
            if in_time { StreamReconnectAction::BuildClient } else { StreamReconnectAction::Return(-1i32) },
        StreamReconnectEvent::ClientBuilt { state_now } =>
            if state_now == STREAM_STATE_SHUTDOWN {
                StreamReconnectAction::DiscardNewClient
            } else {
                StreamReconnectAction::PublishAndSpawn
            },
        StreamReconnectEvent::BuildFailed(_) => StreamReconnectAction::Return(-1i32),
        StreamReconnectEvent::DispatcherSpawned => StreamReconnectAction::RestoreSubscriptions,
        StreamReconnectEvent::SpawnFailed { .. } => StreamReconnectAction::Return(-1i32),
        StreamReconnectEvent::SubscriptionsRestored => StreamReconnectAction::Return(0i32),
        StreamReconnectEvent::NewClientDiscarded => StreamReconnectAction::Return(-1i32),
    }
}

/// The error an event records, if any.
pub open spec fn spec_stream_reconnect_error(e: StreamReconnectEvent) -> Option<LastErrorView> {
    match e {
        StreamReconnectEvent::Requested { handle_present, state, callback_registered } =>
            if !handle_present {
                Some(after_set_error(stream_handle_null_message()))
            } else if state == STREAM_STATE_SHUTDOWN {
                Some(after_set_error(terminal_message()))
            } else if !callback_registered {
                Some(after_set_error(stream_no_callback_message()))
            } else {
                None
            },
        StreamReconnectEvent::OldDrainFinished { in_time } =>
            if in_time { None } else { Some(after_set_error(drain_timeout_message())) },
        StreamReconnectEvent::ClientBuilt { state_now } =>
            if state_now == STREAM_STATE_SHUTDOWN {
                Some(after_set_error(concurrent_shutdown_message()))
            } else {
                None
            },
        StreamReconnectEvent::BuildFailed(err) => Some(after_sdk_error(err)),
        StreamReconnectEvent::SpawnFailed { reason } => Some(after_set_error(spawn_failed_message(reason@))),
        _ => None,
    }
}

/// One step of `thetadatadx_streaming_reconnect`: given what the binding
/// layer observed, record any refusal and say what to do next.
///
/// A null handle, a shut-down handle and a handle that never had a
/// callback are refused before anything is torn down. A live old client
/// is retired and its callback must drain within the barrier before a
/// replacement is built. A replacement built while the handle was shut
/// down concurrently is discarded. Subscription replay never fails the
/// reconnect.
pub fn stream_reconnect_step(slot: &mut LastError, event: StreamReconnectEvent) -> (action: StreamReconnectAction)
    ensures
        action == spec_stream_reconnect_action(event),
        match spec_stream_reconnect_error(event) {
            Some(v) => final(slot)@ == v,
            None => final(slot)@ == old(slot)@,
        },
{
    match event {
        StreamReconnectEvent::Requested { handle_present, state, callback_registered } => {
            if !handle_present {
                set_error(slot, "streaming handle is null".as_bytes());
                StreamReconnectAction::Return(-1)
            } else if state == STREAM_STATE_SHUTDOWN {
                set_error(slot, "streaming handle has already been shut down -- this is terminal".as_bytes());
                StreamReconnectAction::Return(-1)
            } else if !callback_registered {
                set_error(
                    slot,
                    "no callback registered -- call thetadatadx_streaming_set_callback before thetadatadx_streaming_reconnect".as_bytes(),
                );
                StreamReconnectAction::Return(-1)
            } else {
                StreamReconnectAction::RetireOldSession
            }
        },
        StreamReconnectEvent::OldSessionRetired { had_client } => {
            if had_client {
                StreamReconnectAction::AwaitOldDrain
            } else {
                StreamReconnectAction::BuildClient
            }
        },
        StreamReconnectEvent::OldDrainFinished { in_time } => {
            if in_time {
                StreamReconnectAction::BuildClient
            } else {
                set_error(
                    slot,
                    "reconnect drain barrier timed out after 5s — previous callback is still in flight; refusing to bind the new session to the same ctx".as_bytes(),
                );
                StreamReconnectAction::Return(-1)
            }
        },
        StreamReconnectEvent::ClientBuilt { state_now } => {
            if state_now == STREAM_STATE_SHUTDOWN {
                set_error(
                    slot,
                    "handle was shut down concurrently with reconnect -- the replacement session was discarded".as_bytes(),
                );
                StreamReconnectAction::DiscardNewClient
            } else {
                StreamReconnectAction::PublishAndSpawn
            }
        },
        StreamReconnectEvent::BuildFailed(err) => {
            set_error_from(slot, &err);
            StreamReconnectAction::Return(-1)
        },
        StreamReconnectEvent::DispatcherSpawned => StreamReconnectAction::RestoreSubscriptions,
        StreamReconnectEvent::SpawnFailed { reason } => {
            report_spawn_failure(slot, reason.as_slice());
            StreamReconnectAction::Return(-1)
        },
        StreamReconnectEvent::SubscriptionsRestored => StreamReconnectAction::Return(0),
        StreamReconnectEvent::NewClientDiscarded => StreamReconnectAction::Return(-1),
    }
}

/// Whether `e` is a possible outcome of performing `a`.
pub open spec fn stream_answers(a: StreamReconnectAction, e: StreamReconnectEvent) -> bool {
    match a {
        StreamReconnectAction::RetireOldSession => e is OldSessionRetired,
        StreamReconnectAction::AwaitOldDrain => e is OldDrainFinished,
        StreamReconnectAction::BuildClient => e is ClientBuilt || e is BuildFailed,
        StreamReconnectAction::PublishAndSpawn => e is DispatcherSpawned || e is SpawnFailed,
        StreamReconnectAction::DiscardNewClient => e is NewClientDiscarded,
        StreamReconnectAction::RestoreSubscriptions => e is SubscriptionsRestored,
        StreamReconnectAction::Return(_) => false,
    }
}

/// A run of the machine: it starts with the request and every later event
/// answers the action the previous event led to.
pub open spec fn stream_run(events: Seq<StreamReconnectEvent>) -> bool {
    &&& events.len() > 0
    &&& events[0] is Requested
    &&& forall|i: int| 0 < i < events.len() ==>
        stream_answers(spec_stream_reconnect_action(#[trigger] events[i - 1]), events[i])
}

/// The action a run ends on.
pub open spec fn stream_outcome(events: Seq<StreamReconnectEvent>) -> StreamReconnectAction {
    spec_stream_reconnect_action(events[events.len() - 1])
}

/// A streaming reconnect reports success only when the handle was live and
/// had a callback, the old callback drained in time, the replacement was
/// built while the handle stayed live, and its dispatcher was spawned; a
/// reconnect that reports failure has recorded why in the error slot (in
/// its last step, or, for a discarded replacement, in the step before).
pub proof fn lemma_stream_reconnect_outcome(events: Seq<StreamReconnectEvent>)
    requires
        stream_run(events),
        stream_outcome(events) is Return,
    ensures
        stream_outcome(events) == StreamReconnectAction::Return(0i32) ==> {
            &&& events[0] matches StreamReconnectEvent::Requested { handle_present, state, callback_registered }
                && handle_present && state != STREAM_STATE_SHUTDOWN && callback_registered
            &&& exists|i: int| 0 <= i < events.len() && #[trigger] events[i] is DispatcherSpawned
            &&& forall|i: int| 0 <= i < events.len() ==> {
                &&& !(#[trigger] events[i] is BuildFailed)
                &&& !(events[i] is SpawnFailed)
                &&& (events[i] matches StreamReconnectEvent::OldDrainFinished { in_time } ==> in_time)
                &&& (events[i] matches StreamReconnectEvent::ClientBuilt { state_now } ==> state_now != STREAM_STATE_SHUTDOWN)
            }
        },
        stream_outcome(events) == StreamReconnectAction::Return(-1i32) ==> {
            ||| spec_stream_reconnect_error(events[events.len() - 1]) is Some
            ||| (events.len() >= 2 && events[events.len() - 1] is NewClientDiscarded
                && spec_stream_reconnect_error(events[events.len() - 2]) is Some)
        },
{
    let n = events.len() as int;
    // No event before the last one ends the run.
    assert forall|i: int| 0 <= i < n - 1 implies !(spec_stream_reconnect_action(#[trigger] events[i]) is Return) by {
        assert(stream_answers(spec_stream_reconnect_action(events[(i + 1) - 1]), events[i + 1]));
    }
    if stream_outcome(events) == StreamReconnectAction::Return(0i32) {
        assert(n >= 2) by {
            if n == 1 {
                assert(events[0] is Requested);
            }
        }
        assert(stream_answers(spec_stream_reconnect_action(events[(n - 1) - 1]), events[n - 1]));
        assert(events[n - 2] is DispatcherSpawned);
        assert(!(spec_stream_reconnect_action(events[0]) is Return));
        assert forall|i: int| 0 <= i < n implies {
            &&& !(#[trigger] events[i] is BuildFailed)
            &&& !(events[i] is SpawnFailed)
            &&& (events[i] matches StreamReconnectEvent::OldDrainFinished { in_time } ==> in_time)
            &&& (events[i] matches StreamReconnectEvent::ClientBuilt { state_now } ==> state_now != STREAM_STATE_SHUTDOWN)
        } by {
            if i < n - 1 {
                assert(!(spec_stream_reconnect_action(events[i]) is Return));
                match events[i] {
                    StreamReconnectEvent::ClientBuilt { state_now } => {
                        if state_now == STREAM_STATE_SHUTDOWN {
                            assert(stream_answers(spec_stream_reconnect_action(events[(i + 1) - 1]), events[i + 1]));
                            assert(events[i + 1] is NewClientDiscarded);
                            if i + 1 < n - 1 {
                                assert(!(spec_stream_reconnect_action(events[i + 1]) is Return));
                            }
                        }
                    },
                    _ => {},
                }
            }
        }
    }
    if stream_outcome(events) == StreamReconnectAction::Return(-1i32) {
        if events[n - 1] is NewClientDiscarded {
            assert(n >= 2);
            assert(stream_answers(spec_stream_reconnect_action(events[(n - 1) - 1]), events[n - 1]));
        }
    }
}

// ── unified client ──────────────────────────────────────────────────────

/// Work the binding layer performs during a unified-client reconnect.
#[derive(Clone, Copy, Debug, PartialEq, Eq, Structural)]
pub enum ClientReconnectAction {
    /// Snapshot the per-contract subscriptions.
    SaveSubscriptions,
    /// Snapshot the full-stream subscriptions.
    SaveFullSubscriptions,
    /// Look up the registered callback.
    LookUpCallback,
    /// Stop the current streaming session.
    StopStreaming,
    /// Wait (up to 5 s) for the old callback to drain.
    AwaitDrain,
    /// Start a new session bound to the registered callback.
    StartStreaming,
    /// Replay the saved subscriptions (best effort).
    RestoreSubscriptions,
    /// Return this code to the C caller.
    Return(i32),
}

/// What the binding layer observed.
pub enum ClientReconnectEvent {
    /// The call arrived; says whether the handle pointer was non-null.
    Requested { handle_present: bool },
    /// The per-contract snapshot was taken, or failed.
    SubscriptionsSaved(Result<(), SdkError>),
    /// The full-stream snapshot was taken, or failed.
    FullSubscriptionsSaved(Result<(), SdkError>),
    /// The callback slot was read.
    CallbackLooked { registered: bool },
    /// The old session was stopped.
    Stopped,
    /// The drain wait ended.
    DrainFinished { in_time: bool },
    /// The new session started, or failed to.
    Started(Result<(), SdkError>),
    /// The subscription replay finished, whatever its outcome.
    SubscriptionsRestored,
}

/// The action each event leads to.
pub open spec fn spec_client_reconnect_action(e: ClientReconnectEvent) -> ClientReconnectAction {
    match e {
        ClientReconnectEvent::Requested { handle_present } =>
            if handle_present { ClientReconnectAction::SaveSubscriptions } else { ClientReconnectAction::Return(-1i32) },
        ClientReconnectEvent::SubscriptionsSaved(r) =>
            if r is Ok { ClientReconnectAction::SaveFullSubscriptions } else { ClientReconnectAction::Return(-1i32) },
        ClientReconnectEvent::FullSubscriptionsSaved(r) =>
            if r is Ok { ClientReconnectAction::LookUpCallback } else { ClientReconnectAction::Return(-1i32) },
        ClientReconnectEvent::CallbackLooked { registered } =>
            if registered { ClientReconnectAction::StopStreaming } else { ClientReconnectAction::Return(-1i32) },
        ClientReconnectEvent::Stopped => ClientReconnectAction::AwaitDrain,
        ClientReconnectEvent::DrainFinished { in_time } =>
            if in_time { ClientReconnectAction::StartStreaming } else { ClientReconnectAction::Return(-1i32) },
        ClientReconnectEvent::Started(r) =>
            if r is Ok { ClientReconnectAction::RestoreSubscriptions } else { ClientReconnectAction::Return(-1i32) },
        ClientReconnectEvent::SubscriptionsRestored => ClientReconnectAction::Return(0i32),
    }
}

/// The error an event records, if any.
pub open spec fn spec_client_reconnect_error(e: ClientReconnectEvent) -> Option<LastErrorView> {
    match e {
        ClientReconnectEvent::Requested { handle_present } =>
            if handle_present { None } else { Some(after_set_error(unified_handle_null_message())) },
        ClientReconnectEvent::SubscriptionsSaved(Err(err)) => Some(after_sdk_error(err)),
        ClientReconnectEvent::FullSubscriptionsSaved(Err(err)) => Some(after_sdk_error(err)),
        ClientReconnectEvent::CallbackLooked { registered } =>
            if registered { None } else { Some(after_set_error(client_no_callback_message())) },
        ClientReconnectEvent::DrainFinished { in_time } =>
            if in_time { None } else { Some(after_set_error(drain_timeout_message())) },
        ClientReconnectEvent::Started(Err(err)) => Some(after_sdk_error(err)),
        _ => None,
    }
}

/// One step of `thetadatadx_client_reconnect`: given what the binding
/// layer observed, record any refusal and say what to do next.
///
/// Both subscription snapshots must succeed (an empty fallback would drop
/// every subscription), a callback must have been registered, and the old
/// callback must drain within the barrier before the new session starts.
/// Subscription replay never fails the reconnect.
pub fn client_reconnect_step(slot: &mut LastError, event: ClientReconnectEvent) -> (action: ClientReconnectAction)
    ensures
        action == spec_client_reconnect_action(event),
        match spec_client_reconnect_error(event) {
            Some(v) => final(slot)@ == v,
            None => final(slot)@ == old(slot)@,
        },
{
    match event {
        ClientReconnectEvent::Requested { handle_present } => {
            if handle_present {
                ClientReconnectAction::SaveSubscriptions
            } else {
                set_error(slot, "unified handle is null".as_bytes());
                ClientReconnectAction::Return(-1)
            }
        },
        ClientReconnectEvent::SubscriptionsSaved(r) => match r {
            Ok(()) => ClientReconnectAction::SaveFullSubscriptions,
            Err(err) => {
                set_error_from(slot, &err);
                ClientReconnectAction::Return(-1)
            },
        },
        ClientReconnectEvent::FullSubscriptionsSaved(r) => match r {
            Ok(()) => ClientReconnectAction::LookUpCallback,
            Err(err) => {
                set_error_from(slot, &err);
                ClientReconnectAction::Return(-1)
            },
        },
        ClientReconnectEvent::CallbackLooked { registered } => {
            if registered {
                ClientReconnectAction::StopStreaming
            } else {
                set_error(
                    slot,
                    "no callback registered -- call thetadatadx_client_set_callback before thetadatadx_client_reconnect".as_bytes(),
                );
                ClientReconnectAction::Return(-1)
            }
        },
        ClientReconnectEvent::Stopped => ClientReconnectAction::AwaitDrain,
        ClientReconnectEvent::DrainFinished { in_time } => {
            if in_time {
                ClientReconnectAction::StartStreaming
            } else {
                set_error(
                    slot,
                    "reconnect drain barrier timed out after 5s — previous callback is still in flight; refusing to bind the new session to the same ctx".as_bytes(),
                );
                ClientReconnectAction::Return(-1)
            }
        },
        ClientReconnectEvent::Started(r) => match r {
            Ok(()) => ClientReconnectAction::RestoreSubscriptions,
            Err(err) => {
                set_error_from(slot, &err);
                ClientReconnectAction::Return(-1)
            },
        },
        ClientReconnectEvent::SubscriptionsRestored => ClientReconnectAction::Return(0),
    }
}

/// Whether `e` is a possible outcome of performing `a`.
pub open spec fn client_answers(a: ClientReconnectAction, e: ClientReconnectEvent) -> bool {
    match a {
        ClientReconnectAction::SaveSubscriptions => e is SubscriptionsSaved,
        ClientReconnectAction::SaveFullSubscriptions => e is FullSubscriptionsSaved,
        ClientReconnectAction::LookUpCallback => e is CallbackLooked,
        ClientReconnectAction::StopStreaming => e is Stopped,
        ClientReconnectAction::AwaitDrain => e is DrainFinished,
        ClientReconnectAction::StartStreaming => e is Started,
        ClientReconnectAction::RestoreSubscriptions => e is SubscriptionsRestored,
        ClientReconnectAction::Return(_) => false,
    }
}

/// A run of the machine: it starts with the request and every later event
/// answers the action the previous event led to.
pub open spec fn client_run(events: Seq<ClientReconnectEvent>) -> bool {
    &&& events.len() > 0
    &&& events[0] is Requested
    &&& forall|i: int| 0 < i < events.len() ==>
        client_answers(spec_client_reconnect_action(#[trigger] events[i - 1]), events[i])
}

/// The rank of the step an event answers, in the order the steps run.
pub open spec fn client_stage(e: ClientReconnectEvent) -> int {
    match e {
        ClientReconnectEvent::Requested { .. } => 0,
        ClientReconnectEvent::SubscriptionsSaved(_) => 1,
        ClientReconnectEvent::FullSubscriptionsSaved(_) => 2,
        ClientReconnectEvent::CallbackLooked { .. } => 3,
        ClientReconnectEvent::Stopped => 4,
        ClientReconnectEvent::DrainFinished { .. } => 5,
        ClientReconnectEvent::Started(_) => 6,
        ClientReconnectEvent::SubscriptionsRestored => 7,
    }
}

/// Every event of a run answers the step of its own rank.
proof fn lemma_client_run_in_order(events: Seq<ClientReconnectEvent>, i: int)
    requires
        client_run(events),
        0 <= i < events.len(),
    ensures
        client_stage(events[i]) == i,
        i < events.len() - 1 ==> !(spec_client_reconnect_action(events[i]) is Return),
    decreases i,
{
    if i > 0 {
        lemma_client_run_in_order(events, i - 1);
        assert(client_answers(spec_client_reconnect_action(events[i - 1]), events[i]));
    }
    if i < events.len() - 1 {
        assert(client_answers(spec_client_reconnect_action(events[(i + 1) - 1]), events[i + 1]));
    }
}

/// A unified-client reconnect reports success only after it passed every
/// step in order: both subscription snapshots were taken, a callback was
/// registered, the old session stopped and drained in time, the new
/// session started, and the subscriptions were replayed. A reconnect that
/// reports failure has recorded why in the error slot.
pub proof fn lemma_client_reconnect_outcome(events: Seq<ClientReconnectEvent>)
    requires
        client_run(events),
        spec_client_reconnect_action(events[events.len() - 1]) is Return,
    ensures
        spec_client_reconnect_action(events[events.len() - 1]) == ClientReconnectAction::Return(0i32) ==> {
            &&& events.len() == 8
            &&& events[0] == (ClientReconnectEvent::Requested { handle_present: true })
            &&& events[1] matches ClientReconnectEvent::SubscriptionsSaved(r) && r is Ok
            &&& events[2] matches ClientReconnectEvent::FullSubscriptionsSaved(r) && r is Ok
            &&& events[3] == (ClientReconnectEvent::CallbackLooked { registered: true })
            &&& events[4] is Stopped
            &&& events[5] == (ClientReconnectEvent::DrainFinished { in_time: true })
            &&& events[6] matches ClientReconnectEvent::Started(r) && r is Ok
            &&& events[7] is SubscriptionsRestored
        },
        spec_client_reconnect_action(events[events.len() - 1]) == ClientReconnectAction::Return(-1i32)
            ==> spec_client_reconnect_error(events[events.len() - 1]) is Some,
{
    let n = events.len() as int;
    lemma_client_run_in_order(events, n - 1);
    if spec_client_reconnect_action(events[n - 1]) == ClientReconnectAction::Return(0i32) {
        assert forall|i: int| 0 <= i < n implies client_stage(#[trigger] events[i]) == i
            && (i < n - 1 ==> !(spec_client_reconnect_action(events[i]) is Return)) by {
            lemma_client_run_in_order(events, i);
        }
        assert(events[n - 1] is SubscriptionsRestored);
        assert(n == 8);
        assert(client_stage(events[0]) == 0);
        assert(client_stage(events[1]) == 1);
        assert(client_stage(events[2]) == 2);
        assert(client_stage(events[3]) == 3);
        assert(client_stage(events[5]) == 5);
        assert(client_stage(events[6]) == 6);
    }
    if spec_client_reconnect_action(events[n - 1]) == ClientReconnectAction::Return(-1i32) {
        match events[n - 1] {
            ClientReconnectEvent::SubscriptionsSaved(r) => { assert(r is Err); },
            ClientReconnectEvent::FullSubscriptionsSaved(r) => { assert(r is Err); },
            ClientReconnectEvent::Started(r) => { assert(r is Err); },
            _ => {},
        }
    }
}

} // verus!
