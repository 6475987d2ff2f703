//! Lifecycle rules of a standalone streaming handle.
//!
//! A handle is `FRESH` until its one callback registration succeeds, then
//! `ACTIVE`; `SHUTDOWN` is terminal. The binding layer keeps the state in an
//! atomic and asks these functions which calls it may accept and what the
//! state becomes.

use vstd::prelude::*;
use crate::error_slot::{after_set_error, set_error, LastError};
use crate::text::utf8;

verus! {

/// No callback installed yet.
pub const STREAM_STATE_FRESH: u8 = 0;
/// The one permitted callback is installed.
pub const STREAM_STATE_ACTIVE: u8 = 1;
/// Shut down; terminal.
pub const STREAM_STATE_SHUTDOWN: u8 = 2;

/// Message when a second registration is attempted.
pub open spec fn already_installed_message() -> Seq<u8> {
    utf8("streaming callback already installed -- only one set_callback call is permitted per handle")
}

/// Message for any lifecycle call after shutdown.
pub open spec fn terminal_message() -> Seq<u8> {
    utf8("streaming handle has already been shut down -- this is terminal")
}

/// Message for a state value outside the three defined ones.
pub open spec fn unknown_state_message() -> Seq<u8> {
    utf8("streaming handle in unknown lifecycle state -- refusing operation")
}

/// Admission check for a callback registration: only a `FRESH` handle proceeds. An
/// `ACTIVE` handle refuses a second registration, a `SHUTDOWN` handle is
/// terminal, and any other value fails closed; each refusal records its
/// reason.
pub fn reject_if_not_fresh(slot: &mut LastError, state: u8) -> (proceed: bool)
    ensures
        proceed == (state == STREAM_STATE_FRESH),
        state == STREAM_STATE_FRESH ==> final(slot)@ == old(slot)@,
        state == STREAM_STATE_ACTIVE ==> final(slot)@ == after_set_error(already_installed_message()),
        state == STREAM_STATE_SHUTDOWN ==> final(slot)@ == after_set_error(terminal_message()),
        state > STREAM_STATE_SHUTDOWN ==> final(slot)@ == after_set_error(unknown_state_message()),
{
    if state == STREAM_STATE_FRESH {
        true
    } else if state == STREAM_STATE_ACTIVE {
        set_error(
            slot,
            "streaming callback already installed -- only one set_callback call is permitted per handle".as_bytes(),
        );
        false
    } else if state == STREAM_STATE_SHUTDOWN {
        set_error(slot, "streaming handle has already been shut down -- this is terminal".as_bytes());
        false
    } else {
        set_error(slot, "streaming handle in unknown lifecycle state -- refusing operation".as_bytes());
        false
    }
}

/// Admission check for reconnect and shutdown: everything but a shut-down handle
/// proceeds; a shut-down handle records the terminal message.
pub fn reject_if_shutdown(slot: &mut LastError, state: u8) -> (proceed: bool)
    ensures
        proceed == (state != STREAM_STATE_SHUTDOWN),
        proceed ==> final(slot)@ == old(slot)@,
        !proceed ==> final(slot)@ == after_set_error(terminal_message()),
{
    if state == STREAM_STATE_SHUTDOWN {
        set_error(slot, "streaming handle has already been shut down -- this is terminal".as_bytes());
        false
    } else {
        true
    }
}

/// A lifecycle call on a standalone streaming handle.
#[derive(Clone, Copy, Debug, PartialEq, Eq, Structural)]
pub enum LifecycleCall {
    /// A callback registration; `opened` says whether the connection and
    /// the dispatcher came up when the admission check let it through.
    SetCallback { opened: bool },
    /// A reconnect; `opened` says whether the replacement session came up.
    Reconnect { opened: bool },
    /// An explicit shutdown.
    Shutdown,
    /// Release of the handle (shuts it down first when still live).
    Free,
}

/// Whether a call succeeds in a state.
pub open spec fn spec_call_succeeds(state: u8, call: LifecycleCall) -> bool {
    match call {
        LifecycleCall::SetCallback { opened } => state == STREAM_STATE_FRESH && opened,
        LifecycleCall::Reconnect { opened } => state != STREAM_STATE_SHUTDOWN && opened,
        LifecycleCall::Shutdown => state != STREAM_STATE_SHUTDOWN,
        LifecycleCall::Free => true,
    }
}

/// The state after a call.
pub open spec fn spec_state_after(state: u8, call: LifecycleCall) -> u8 {
    match call {
        LifecycleCall::SetCallback { opened } => if state == STREAM_STATE_FRESH && opened {
            STREAM_STATE_ACTIVE
        } else {
            state
        },
        LifecycleCall::Reconnect { .. } => state,
        LifecycleCall::Shutdown => STREAM_STATE_SHUTDOWN,
        LifecycleCall::Free => STREAM_STATE_SHUTDOWN,
    }
}

/// Whether a call succeeds in the given state.
pub fn call_succeeds(state: u8, call: LifecycleCall) -> (r: bool)
    ensures
        r == spec_call_succeeds(state, call),
{
    match call {
        LifecycleCall::SetCallback { opened } => state == STREAM_STATE_FRESH && opened,
        LifecycleCall::Reconnect { opened } => state != STREAM_STATE_SHUTDOWN && opened,
        LifecycleCall::Shutdown => state != STREAM_STATE_SHUTDOWN,
        LifecycleCall::Free => true,
    }
}

/// The lifecycle state a call leaves behind.
pub fn state_after(state: u8, call: LifecycleCall) -> (r: u8)
    ensures
        r == spec_state_after(state, call),
{
    match call {
        LifecycleCall::SetCallback { opened } => if state == STREAM_STATE_FRESH && opened {
            STREAM_STATE_ACTIVE
        } else {
            state
        },
        LifecycleCall::Reconnect { .. } => state,
        LifecycleCall::Shutdown => STREAM_STATE_SHUTDOWN,
        LifecycleCall::Free => STREAM_STATE_SHUTDOWN,
    }
}

/// The state after a sequence of calls.
pub open spec fn spec_run(state: u8, calls: Seq<LifecycleCall>) -> u8
    decreases calls.len(),
{
    if calls.len() == 0 {
        state
    } else {
        spec_run(spec_state_after(state, calls[0]), calls.drop_first())
    }
}

/// How many registrations succeed over a sequence of calls.
pub open spec fn spec_registrations(state: u8, calls: Seq<LifecycleCall>) -> nat
    decreases calls.len(),
{
    if calls.len() == 0 {
        0
    } else {
        let here: nat = if calls[0] is SetCallback && spec_call_succeeds(state, calls[0]) { 1 } else { 0 };
        here + spec_registrations(spec_state_after(state, calls[0]), calls.drop_first())
    }
}

/// Whether any registration, reconnect or shutdown succeeds over a sequence
/// of calls.
pub open spec fn spec_any_accepted(state: u8, calls: Seq<LifecycleCall>) -> bool
    decreases calls.len(),
{
    if calls.len() == 0 {
        false
    } else {
        (!(calls[0] is Free) && spec_call_succeeds(state, calls[0]))
            || spec_any_accepted(spec_state_after(state, calls[0]), calls.drop_first())
    }
}

/// Shutdown is terminal: from a shut-down handle, whatever calls follow,
/// the handle stays shut down and no registration, reconnect or further
/// shutdown succeeds.
pub proof fn lemma_shutdown_is_terminal(calls: Seq<LifecycleCall>)
    ensures
        spec_run(STREAM_STATE_SHUTDOWN, calls) == STREAM_STATE_SHUTDOWN,
        !spec_any_accepted(STREAM_STATE_SHUTDOWN, calls),
    decreases calls.len(),
{
    if calls.len() > 0 {
        lemma_shutdown_is_terminal(calls.drop_first());
    }
}

/// A registered handle never becomes fresh again.
proof fn lemma_never_fresh_again(state: u8, calls: Seq<LifecycleCall>)
    requires
        state == STREAM_STATE_ACTIVE || state == STREAM_STATE_SHUTDOWN,
    ensures
        spec_registrations(state, calls) == 0,
        spec_run(state, calls) == STREAM_STATE_ACTIVE || spec_run(state, calls) == STREAM_STATE_SHUTDOWN,
    decreases calls.len(),
{
    if calls.len() > 0 {
        lemma_never_fresh_again(spec_state_after(state, calls[0]), calls.drop_first());
    }
}

/// One-shot registration: over any sequence of calls on a handle that
/// starts fresh, at most one callback registration succeeds.
pub proof fn lemma_single_registration(calls: Seq<LifecycleCall>)
    ensures
        spec_registrations(STREAM_STATE_FRESH, calls) <= 1,
    decreases calls.len(),
{
    if calls.len() > 0 {
        let next = spec_state_after(STREAM_STATE_FRESH, calls[0]);
        if next == STREAM_STATE_FRESH {
            lemma_single_registration(calls.drop_first());
        } else {
            lemma_never_fresh_again(next, calls.drop_first());
        }
    }
}

} // verus!
