//! The binding state of the Python `StreamingClient`: which client is
//! live and which callback registration owns the handle.
//!
//! `start_streaming` reserves the callback slot, releases the lock for the
//! blocking connect, and publishes only if its reservation still owns the
//! slot afterwards; a concurrent stop or a newer start in that window wins.
//! Reservations are told apart by a token the binding layer draws fresh
//! for every start (the callable's `Arc` identity).

use vstd::prelude::*;
use crate::sdk_error::SdkError;
use crate::text::{concat, utf8};

verus! {

/// The two slots the Python handle keeps behind its mutexes.
#[derive(Clone, Copy, Debug, PartialEq, Eq, Structural)]
pub struct PyStreamSlots {
    /// Whether a streaming client is published.
    pub client_live: bool,
    /// The reservation token of the registered callback, if any.
    pub callback: Option<u64>,
}

/// Why a Python streaming call raises.
pub enum PyStreamError {
    /// A `RuntimeError` with this message.
    Runtime(Vec<u8>),
    /// The typed exception an SDK failure maps to.
    Sdk(SdkError),
}

pub open spec fn already_started_py_message() -> Seq<u8> {
    utf8("streaming already started -- call stop_streaming() before start_streaming() again")
}

pub open spec fn superseded_message() -> Seq<u8> {
    utf8("streaming start superseded by a concurrent stop/start")
}

pub open spec fn py_spawn_failed_message(reason: Seq<u8>) -> Seq<u8> {
    utf8("failed to spawn streaming dispatcher thread: ") + reason
}

pub open spec fn no_callback_py_message() -> Seq<u8> {
    utf8("no callback registered -- call start_streaming(callback) before reconnect()")
}

pub open spec fn not_started_py_message() -> Seq<u8> {
    utf8("streaming not started -- call start_streaming(callback) first")
}

/// Whether an error is a `RuntimeError` with the given message.
pub open spec fn is_runtime(e: PyStreamError, msg: Seq<u8>) -> bool {
    e matches PyStreamError::Runtime(m) && m@ == msg
}

/// The slot after a reservation is released: cleared only when it still
/// holds that reservation.
pub open spec fn released(slot: Option<u64>, token: u64) -> Option<u64> {
    if slot == Some(token) { None } else { slot }
}

impl PyStreamSlots {
    /// A handle that has not started streaming.
    pub fn new() -> (s: PyStreamSlots)
        ensures
            !s.client_live,
            s.callback is None,
    {
        PyStreamSlots { client_live: false, callback: None }
    }

    /// Release reservation `token`: the slot is cleared only when it still
    /// holds this reservation, so a newer registration that replaced it
    /// during the connect keeps its slot.
    pub fn release_reservation(&mut self, token: u64)
        ensures
            final(self).client_live == old(self).client_live,
            final(self).callback == released(old(self).callback, token),
    {
        if self.callback == Some(token) {
            self.callback = None;
        }
    }

    /// The admission check of `start_streaming`: refused while a client is live or
    /// another start holds a reservation; otherwise reservation `token`
    /// takes the callback slot.
    pub fn reserve(&mut self, token: u64) -> (r: Result<(), PyStreamError>)
        ensures
            *final(self) == spec_reserve(*old(self), token).0,
            spec_reserve(*old(self), token).1 ==> r is Ok,
            !spec_reserve(*old(self), token).1 ==> (r matches Err(e) && is_runtime(e, already_started_py_message())),
    {
        if self.client_live || self.callback.is_some() {
            return Err(PyStreamError::Runtime(crate::text::bytes_of(
                "streaming already started -- call stop_streaming() before start_streaming() again".as_bytes(),
            )));
        }
        self.callback = Some(token);
        Ok(())
    }

    /// After the connect of the start holding `token`: a failed connect
    /// releases the reservation and raises the SDK error; a connect whose
    /// reservation was superseded by a concurrent stop or start raises
    /// without publishing (the caller shuts the new client down); otherwise
    /// the client is published and the caller spawns the dispatcher.
    pub fn after_connect(&mut self, token: u64, built: Result<(), SdkError>) -> (r: Result<(), PyStreamError>)
        ensures
            *final(self) == spec_after_connect(*old(self), token, built is Ok),
            match built {
                Err(e) => r == Err::<(), PyStreamError>(PyStreamError::Sdk(e)),
                Ok(()) => if old(self).callback == Some(token) {
                    r is Ok
                } else {
                    r matches Err(e) && is_runtime(e, superseded_message())
                },
            },
    {
        match built {
            Err(e) => {
                self.release_reservation(token);
                Err(PyStreamError::Sdk(e))
            },
            Ok(()) => {
                if self.callback == Some(token) {
                    self.client_live = true;
                    Ok(())
                } else {
                    Err(PyStreamError::Runtime(crate::text::bytes_of(
                        "streaming start superseded by a concurrent stop/start".as_bytes(),
                    )))
                }
            },
        }
    }

    /// After the dispatcher spawn of the start holding `token` (which owns
    /// the slot, since the callback lock is held from the publish on): a
    /// spawned dispatcher keeps the registration; a failed spawn withdraws
    /// the client, releases the reservation and raises.
    pub fn after_spawn(&mut self, token: u64, spawned: Result<(), Vec<u8>>) -> (r: Result<(), PyStreamError>)
        ensures
            match spawned {
                Ok(()) => r is Ok && *final(self) == *old(self),
                Err(reason) => (r matches Err(e) && is_runtime(e, py_spawn_failed_message(reason@)))
                    && *final(self) == spec_after_failed_spawn(*old(self), token),
            },
    {
        match spawned {
            Ok(()) => Ok(()),
            Err(reason) => {
                self.client_live = false;
                self.release_reservation(token);
                Err(PyStreamError::Runtime(concat(
                    "failed to spawn streaming dispatcher thread: ".as_bytes(),
                    reason.as_slice(),
                )))
            },
        }
    }

    /// `stop_streaming`: the client is withdrawn and the registration
    /// forgotten (the caller shuts the client down and joins the
    /// dispatcher).
    pub fn stop(&mut self)
        ensures
            *final(self) == spec_stop(*old(self)),
    {
        self.client_live = false;
        self.callback = None;
    }

    /// `active_subscriptions()`: none while no client is published;
    /// otherwise the snapshot the binding layer read from the live client
    /// (`None` when it could not read one).
    pub fn active_subscriptions<S>(&self, snapshot: Option<Vec<S>>) -> (r: Vec<S>)
        ensures
            r@ == spec_py_active_subscriptions(*self, match snapshot {
                Some(v) => Some(v@),
                None => None,
            }),
    {
        if !self.client_live {
            return Vec::new();
        }
        match snapshot {
            Some(v) => v,
            None => Vec::new(),
        }
    }

    /// The admission check of `reconnect`: it needs a registered callback, then a live
    /// client to snapshot the subscriptions from.
    pub fn check_reconnect(&self) -> (r: Result<(), PyStreamError>)
        ensures
            self.callback is None ==> (r matches Err(e) && is_runtime(e, no_callback_py_message())),
            self.callback is Some && !self.client_live ==> (r matches Err(e) && is_runtime(e, not_started_py_message())),
            self.callback is Some && self.client_live ==> r is Ok,
    {
        if self.callback.is_none() {
            Err(PyStreamError::Runtime(crate::text::bytes_of(
                "no callback registered -- call start_streaming(callback) before reconnect()".as_bytes(),
            )))
        } else if !self.client_live {
            Err(PyStreamError::Runtime(crate::text::bytes_of(
                "streaming not started -- call start_streaming(callback) first".as_bytes(),
            )))
        } else {
            Ok(())
        }
    }
}

/// The slots after a connect of the start holding `token` (`ok` says
/// whether the connect succeeded).
pub open spec fn spec_after_connect(s: PyStreamSlots, token: u64, ok: bool) -> PyStreamSlots {
    if !ok {
        PyStreamSlots { client_live: s.client_live, callback: released(s.callback, token) }
    } else if s.callback == Some(token) {
        PyStreamSlots { client_live: true, callback: Some(token) }
    } else {
        s
    }
}

/// The slots after a failed dispatcher spawn of the start holding `token`.
pub open spec fn spec_after_failed_spawn(s: PyStreamSlots, token: u64) -> PyStreamSlots {
    PyStreamSlots { client_live: false, callback: released(s.callback, token) }
}

/// The slots after a stop.
pub open spec fn spec_stop(s: PyStreamSlots) -> PyStreamSlots {
    PyStreamSlots { client_live: false, callback: None }
}

/// The subscriptions the Python client reports: none while no client is
/// published, otherwise what the live client's snapshot holds.
pub open spec fn spec_py_active_subscriptions<S>(s: PyStreamSlots, snapshot: Option<Seq<S>>) -> Seq<S> {
    if !s.client_live {
        Seq::empty()
    } else {
        match snapshot {
            Some(v) => v,
            None => Seq::empty(),
        }
    }
}

/// After `stop_streaming` the Python client publishes no client and reports
/// no subscriptions, whatever the old client held; no callback stays
/// registered (so `reconnect` is refused for want of one); and a second
/// stop changes nothing.
pub proof fn lemma_stop_clears_python_client<S>(s: PyStreamSlots, snapshot: Option<Seq<S>>)
    ensures
        !spec_stop(s).client_live,
        spec_py_active_subscriptions(spec_stop(s), snapshot) == Seq::<S>::empty(),
        spec_stop(s).callback is None,
        spec_stop(spec_stop(s)) == spec_stop(s),
{
}

/// Stop wins over a start in flight: once `stop_streaming` has run, the
/// connect of any start that reserved earlier does not publish a client,
/// whatever it returns.
pub proof fn lemma_stop_wins_over_inflight_start(s: PyStreamSlots, token: u64, ok: bool)
    ensures
        !spec_after_connect(spec_stop(s), token, ok).client_live,
        spec_after_connect(spec_stop(s), token, ok).callback is None,
{
}

/// A superseded start never clobbers the registration that replaced it:
/// when the slot holds another reservation, the connect (successful or
/// not) and a failed spawn of the older start leave that reservation in
/// place, and a connect does not change whether a client is live.
pub proof fn lemma_superseded_start_keeps_newer(s: PyStreamSlots, token: u64, ok: bool)
    requires
        s.callback is Some,
        s.callback != Some(token),
    ensures
        spec_after_connect(s, token, ok) == s,
        spec_after_failed_spawn(s, token).callback == s.callback,
{
}

/// The slots after the admission check of a start with reservation `token`, and
/// whether the admission check let it through.
pub open spec fn spec_reserve(s: PyStreamSlots, token: u64) -> (PyStreamSlots, bool) {
    if s.client_live || s.callback is Some {
        (s, false)
    } else {
        (PyStreamSlots { client_live: false, callback: Some(token) }, true)
    }
}

/// Starts are exclusive: once one start holds the reservation, every other
/// start is refused at admission, and a start that publishes a client
/// publishes it under its own reservation.
pub proof fn lemma_one_start_at_a_time(s: PyStreamSlots, first: u64, second: u64, ok: bool)
    ensures
        spec_reserve(s, first).1 ==> !spec_reserve(spec_reserve(s, first).0, second).1,
        (!s.client_live && spec_after_connect(s, second, ok).client_live)
            ==> spec_after_connect(s, second, ok).callback == Some(second),
{
}

/// An uncontested start publishes: from a handle with no client and no
/// reservation, a start whose connect succeeds leaves its client live
/// under its own registration.
pub proof fn lemma_uncontested_start_publishes(s: PyStreamSlots, token: u64)
    requires
        !s.client_live,
        s.callback is None,
    ensures
        spec_reserve(s, token).1,
        spec_after_connect(spec_reserve(s, token).0, token, true)
            == (PyStreamSlots { client_live: true, callback: Some(token) }),
{
}

} // verus!
