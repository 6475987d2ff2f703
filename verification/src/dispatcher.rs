//! The dispatcher slot of a streaming handle: which dispatcher thread is
//! live, and whether one has failed.
//!
//! The slot is read by the health checks and rewritten by teardown, by the
//! dispatcher thread's own fault arm, and by a join that observes a panic.
//! Each writer only publishes when the slot still describes the session it
//! is talking about, so a late fault report can never clobber a newer
//! session or resurrect a torn-down one.

use vstd::prelude::*;

verus! {

/// The dispatcher slot. `H` is the join handle the binding layer keeps;
/// `thread` identifies the dispatcher thread the handle names.
pub enum DispatcherSession<H> {
    /// No dispatcher is running.
    Idle,
    /// A dispatcher thread is running.
    Running { handle: H, thread: u64 },
    /// The dispatcher died; carries the reason.
    Failed { reason: Vec<u8> },
}

/// Abstract form of the slot.
pub enum SessionView {
    Idle,
    Running { thread: u64 },
    Failed { reason: Seq<u8> },
}

impl<H> DispatcherSession<H> {
    /// The slot without the join handle.
    pub open spec fn view(&self) -> SessionView {
        match self {
            DispatcherSession::Idle => SessionView::Idle,
            DispatcherSession::Running { thread, .. } => SessionView::Running { thread: *thread },
            DispatcherSession::Failed { reason } => SessionView::Failed { reason: reason@ },
        }
    }
}

/// A fresh, idle slot.
pub fn idle_session<H>() -> (s: DispatcherSession<H>)
    ensures
        s.view() == SessionView::Idle,
{
    DispatcherSession::Idle
}

/// Install a freshly spawned dispatcher.
pub fn install_running<H>(session: &mut DispatcherSession<H>, handle: H, thread: u64)
    ensures
        final(session).view() == (SessionView::Running { thread }),
{
    *session = DispatcherSession::Running { handle, thread };
}

/// First phase of teardown: move the session out of the slot, leaving it
/// `Idle`, so the join can run without the slot's lock held.
pub fn extract_dispatcher_session<H>(session: &mut DispatcherSession<H>) -> (taken: DispatcherSession<H>)
    ensures
        taken.view() == old(session).view(),
        final(session).view() == SessionView::Idle,
{
    let mut taken: DispatcherSession<H> = DispatcherSession::Idle;
    std::mem::swap(&mut taken, session);
    taken
}

/// What the teardown does with an extracted session.
pub enum JoinPlan<H> {
    /// Nothing was running.
    Nothing,
    /// The teardown runs on the dispatcher thread itself; joining would
    /// wait on itself, so the thread is left to finish on its own.
    Detach,
    /// Join the dispatcher thread through this handle.
    Join(H),
}

/// Decide how to retire an extracted session from the thread `current`.
pub fn plan_join<H>(session: DispatcherSession<H>, current: u64) -> (plan: JoinPlan<H>)
    ensures
        match session.view() {
            SessionView::Running { thread } => if thread == current {
                plan is Detach
            } else {
                plan is Join
            },
            _ => plan is Nothing,
        },
{
    match session {
        DispatcherSession::Running { handle, thread } => {
            if thread == current {
                JoinPlan::Detach
            } else {
                JoinPlan::Join(handle)
            }
        },
        _ => JoinPlan::Nothing,
    }
}

/// Record that a joined dispatcher had panicked. The slot was released
/// across the join, so a new session may have been installed meanwhile; the
/// failure is recorded only while the slot is still `Idle`.
pub fn record_join_panic<H>(session: &mut DispatcherSession<H>, reason: Vec<u8>)
    ensures
        old(session).view() is Idle ==> final(session).view() == (SessionView::Failed { reason: reason@ }),
        !(old(session).view() is Idle) ==> final(session).view() == old(session).view(),
{
    if matches!(session, DispatcherSession::Idle) {
        *session = DispatcherSession::Failed { reason };
    }
}

/// Publish a failure from the dispatcher thread `thread` itself. The slot
/// changes only while it still holds the `Running` session of that very
/// thread: an extracted (`Idle`) slot or a newer session stays as it is.
pub fn publish_failed_if_current<H>(session: &mut DispatcherSession<H>, thread: u64, reason: Vec<u8>)
    ensures
        (old(session).view() matches SessionView::Running { thread: t } && t == thread)
            ==> final(session).view() == (SessionView::Failed { reason: reason@ }),
        !(old(session).view() matches SessionView::Running { thread: t } && t == thread)
            ==> final(session).view() == old(session).view(),
{
    let current = match session {
        DispatcherSession::Running { thread: t, .. } => *t == thread,
        _ => false,
    };
    if current {
        *session = DispatcherSession::Failed { reason };
    }
}

/// Whether the slot records a dead dispatcher.
pub fn is_failed<H>(session: &DispatcherSession<H>) -> (r: bool)
    ensures
        r == (session.view() is Failed),
{
    matches!(session, DispatcherSession::Failed { .. })
}

/// How a dispatcher run ended.
#[derive(Clone, Copy, Debug, PartialEq, Eq, Structural)]
pub enum DispatcherExit {
    /// The event loop finished on a clean stop.
    Clean,
    /// The streaming I/O thread terminated abnormally.
    IoFault,
    /// The event-iteration machinery panicked.
    Panicked,
}

/// The reason published when the I/O thread dies under a dispatcher.
pub open spec fn io_fault_reason() -> Seq<char> {
    "fpss io thread terminated abnormally"@
}

/// The failure reason a dispatcher run publishes, if any: the panic's own
/// text for a panic, a fixed reason for an I/O fault, nothing for a clean
/// stop.
pub fn exit_failure_reason(exit: DispatcherExit, panic_text: Vec<u8>) -> (r: Option<Vec<u8>>)
    ensures
        match exit {
            DispatcherExit::Clean => r is None,
            DispatcherExit::Panicked => r == Some(panic_text),
            DispatcherExit::IoFault => r matches Some(v) && v@ == vstd::utf8::encode_utf8(io_fault_reason()),
        },
{
    match exit {
        DispatcherExit::Clean => None,
        DispatcherExit::Panicked => Some(panic_text),
        DispatcherExit::IoFault => Some(crate::text::bytes_of("fpss io thread terminated abnormally".as_bytes())),
    }
}

/// The streaming health check: `1` only while a client is live and its
/// dispatcher has not failed.
pub fn streaming_status<H>(has_client: bool, session: &DispatcherSession<H>) -> (r: i32)
    ensures
        r == spec_streaming_status(has_client, session.view()),
{
    if !has_client {
        return 0;
    }
    if is_failed(session) {
        0
    } else {
        1
    }
}

/// The authentication health check: `1` only while a live client reports
/// authenticated and its dispatcher has not failed (`client_authenticated`
/// is `None` when no client is live).
pub fn authenticated_status<H>(client_authenticated: Option<bool>, session: &DispatcherSession<H>) -> (r: i32)
    ensures
        r == spec_authenticated_status(client_authenticated, session.view()),
{
    match client_authenticated {
        None => 0,
        Some(authenticated) => {
            if authenticated && !is_failed(session) {
                1
            } else {
                0
            }
        },
    }
}

/// The streaming health a client flag and a slot report.
pub open spec fn spec_streaming_status(has_client: bool, session: SessionView) -> i32 {
    if has_client && !(session is Failed) { 1 } else { 0 }
}

/// The authentication health a client flag and a slot report.
pub open spec fn spec_authenticated_status(client_authenticated: Option<bool>, session: SessionView) -> i32 {
    if client_authenticated == Some(true) && !(session is Failed) { 1 } else { 0 }
}

/// A dispatcher that dies flips both health checks at once: once its own
/// fault arm has published the failure over its running session, the
/// streaming and authentication checks read `0` even though the client is
/// still live and authenticated.
pub proof fn lemma_fault_flips_health(running: u64, reason: Seq<u8>)
    ensures
        ({
            let after = SessionView::Failed { reason };
            &&& spec_streaming_status(true, after) == 0
            &&& spec_authenticated_status(Some(true), after) == 0
        }),
        spec_streaming_status(true, SessionView::Running { thread: running }) == 1,
        spec_authenticated_status(Some(true), SessionView::Running { thread: running }) == 1,
{
}

/// A thread's panic payload, as far as its text is concerned: a `&str`
/// payload (what `panic!` with a literal produces), a `String` payload (a
/// formatted `panic!`), or anything else.
pub enum PanicPayload {
    StaticStr(String),
    Owned(String),
    Other,
}

/// The reason recorded for a panic whose payload carries no text.
pub open spec fn non_string_payload_reason() -> Seq<char> {
    "dispatcher panicked with non-string payload"@
}

/// The reason a dispatcher panic is reported with.
pub open spec fn spec_panic_reason(payload: PanicPayload) -> Seq<char> {
    match payload {
        PanicPayload::StaticStr(t) => t@,
        PanicPayload::Owned(t) => t@,
        PanicPayload::Other => non_string_payload_reason(),
    }
}

/// Render a dispatcher thread's panic payload for the C ABI: the panic's
/// own text when it has one, a fixed reason otherwise.
pub fn downcast_ffi_panic_payload(payload: PanicPayload) -> (reason: String)
    ensures
        reason@ == spec_panic_reason(payload),
{
    match payload {
        PanicPayload::StaticStr(t) => t,
        PanicPayload::Owned(t) => t,
        PanicPayload::Other => "dispatcher panicked with non-string payload".to_owned(),
    }
}

/// Render a dispatcher thread's panic payload for the Python binding; the
/// same rule as the C ABI, so both report a given panic identically.
pub fn downcast_py_panic_payload(payload: PanicPayload) -> (reason: String)
    ensures
        reason@ == spec_panic_reason(payload),
{
    downcast_ffi_panic_payload(payload)
}

} // verus!
