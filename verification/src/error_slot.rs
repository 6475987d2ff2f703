//! The per-thread "last error" slot that every C ABI entry point reports
//! failures through.
//!
//! The binding layer keeps one [`LastError`] per OS thread and reads it back
//! through the C accessors; this module owns how the slot changes. Whenever a
//! non-zero code is set the message is populated too, and the message never
//! holds an interior NUL, so it always converts to a C string.

use vstd::prelude::*;
use crate::codes::{
    THETADATADX_ERR_NONE, THETADATADX_ERR_OTHER, THETADATADX_ERR_RATE_LIMIT,
    THETADATADX_RETRY_AFTER_NONE,
};
use crate::sdk_error::{
    error_code_for, retry_after_slot_value, spec_error_code, spec_retry_after_slot, SdkError,
};

verus! {

/// Abstract content of the error slot.
pub struct LastErrorView {
    /// The message bytes (without terminator), if an error is set.
    pub message: Option<Seq<u8>>,
    /// The typed discriminant of the last error.
    pub code: i32,
    /// The retry-after hint in milliseconds, or the "no hint" sentinel.
    pub retry_after_ms: i64,
}

/// True when no byte of `s` is NUL.
pub open spec fn no_nul(s: Seq<u8>) -> bool {
    forall|i: int| 0 <= i < s.len() ==> #[trigger] s[i] != 0u8
}

impl LastErrorView {
    /// The slot's invariant: an empty message comes only with the "no error"
    /// code and no hint; a message never contains NUL; the hint is a real
    /// duration or the sentinel.
    pub open spec fn wf(self) -> bool {
        &&& (self.message is None ==> self.code == THETADATADX_ERR_NONE
            && self.retry_after_ms == THETADATADX_RETRY_AFTER_NONE)
        &&& (self.message matches Some(m) ==> no_nul(m))
        &&& self.retry_after_ms >= THETADATADX_RETRY_AFTER_NONE
    }

    /// The slot as it is before any error and after a clear.
    pub open spec fn cleared() -> LastErrorView {
        LastErrorView {
            message: None,
            code: THETADATADX_ERR_NONE,
            retry_after_ms: THETADATADX_RETRY_AFTER_NONE,
        }
    }
}

/// The slot after a plain `set_error` of `msg`.
pub open spec fn after_set_error(msg: Seq<u8>) -> LastErrorView {
    LastErrorView {
        message: Some(spec_error_cstring(msg)),
        code: THETADATADX_ERR_OTHER,
        retry_after_ms: THETADATADX_RETRY_AFTER_NONE,
    }
}

/// The slot after `set_error_with_code` of `msg` and `code`.
pub open spec fn after_set_error_with_code(msg: Seq<u8>, code: i32) -> LastErrorView {
    LastErrorView {
        message: Some(spec_error_cstring(msg)),
        code: code,
        retry_after_ms: THETADATADX_RETRY_AFTER_NONE,
    }
}

/// One thread's error slot.
pub struct LastError {
    message: Option<Vec<u8>>,
    code: i32,
    retry_after_ms: i64,
}

impl View for LastError {
    type V = LastErrorView;

    closed spec fn view(&self) -> LastErrorView {
        LastErrorView {
            message: match self.message {
                Some(m) => Some(m@),
                None => None,
            },
            code: self.code,
            retry_after_ms: self.retry_after_ms,
        }
    }
}

impl LastError {
    #[verifier::type_invariant]
    spec fn inv(&self) -> bool {
        self@.wf()
    }

    /// An empty slot.
    pub fn new() -> (s: LastError)
        ensures
            s@ == LastErrorView::cleared(),
    {
        LastError { message: None, code: THETADATADX_ERR_NONE, retry_after_ms: THETADATADX_RETRY_AFTER_NONE }
    }

    /// The typed discriminant of the last error, `THETADATADX_ERR_NONE` when
    /// no error is set.
    pub fn code(&self) -> (c: i32)
        ensures
            c == self@.code,
            c != THETADATADX_ERR_NONE ==> self@.message is Some,
    {
        proof { use_type_invariant(self); }
        self.code
    }

    /// The retry-after hint of the last error in milliseconds, or
    /// `THETADATADX_RETRY_AFTER_NONE`.
    pub fn retry_after_ms(&self) -> (r: i64)
        ensures
            r == self@.retry_after_ms,
            r >= THETADATADX_RETRY_AFTER_NONE,
    {
        proof { use_type_invariant(self); }
        self.retry_after_ms
    }

    /// The message of the last error, if one is set.
    pub fn message(&self) -> (m: Option<&Vec<u8>>)
        ensures
            match m {
                Some(v) => self@.message == Some(v@) && no_nul(v@),
                None => self@.message is None,
            },
    {
        proof { use_type_invariant(self); }
        match &self.message {
            Some(v) => Some(v),
            None => None,
        }
    }
}

/// A message with every interior NUL replaced by `?`, so it always converts
/// to a C string.
pub open spec fn spec_error_cstring(msg: Seq<u8>) -> Seq<u8> {
    msg.map_values(|b: u8| if b == 0u8 { 63u8 } else { b })
}

/// Build the stored form of a message: the same bytes, with each NUL
/// replaced by `?`.
pub fn error_cstring(msg: &[u8]) -> (out: Vec<u8>)
    ensures
        out@ == spec_error_cstring(msg@),
        no_nul(out@),
{
    let mut out: Vec<u8> = Vec::with_capacity(msg.len());
    let mut i: usize = 0;
    while i < msg.len()
        invariant
            i <= msg@.len(),
            out@ == spec_error_cstring(msg@.subrange(0, i as int)),
        decreases msg@.len() - i,
    {
        let b = msg[i];
        if b == 0u8 {
            out.push(63u8);
        } else {
            out.push(b);
        }
        proof {
            assert(msg@.subrange(0, i + 1) =~= msg@.subrange(0, i as int).push(b));
            assert(spec_error_cstring(msg@.subrange(0, i + 1)) =~= spec_error_cstring(
                msg@.subrange(0, i as int),
            ).push(if b == 0u8 { 63u8 } else { b }));
        }
        i = i + 1;
    }
    proof {
        assert(msg@.subrange(0, msg@.len() as int) =~= msg@);
    }
    out
}

/// Record a failure that is not an SDK error (argument validation, UTF-8
/// decoding): the message is stored, the code is `THETADATADX_ERR_OTHER`
/// and any earlier retry hint is cleared.
pub fn set_error(slot: &mut LastError, msg: &[u8])
    ensures
        final(slot)@ == after_set_error(msg@),
{
    let stored = error_cstring(msg);
    *slot = LastError {
        message: Some(stored),
        code: THETADATADX_ERR_OTHER,
        retry_after_ms: THETADATADX_RETRY_AFTER_NONE,
    };
}

/// Record a failure whose category the caller knows: the message is stored
/// with the given code and any earlier retry hint is cleared.
pub fn set_error_with_code(slot: &mut LastError, msg: &[u8], code: i32)
    ensures
        final(slot)@ == after_set_error_with_code(msg@, code),
{
    let stored = error_cstring(msg);
    *slot = LastError {
        message: Some(stored),
        code: code,
        retry_after_ms: THETADATADX_RETRY_AFTER_NONE,
    };
}

/// The retry-after hint the slot keeps for an SDK failure: a rate-limit
/// failure keeps its back-off hint (when it carries one that fits); every
/// other failure reads "no hint".
pub open spec fn spec_slot_retry_after(err: SdkError) -> i64 {
    if spec_error_code(err.kind) == THETADATADX_ERR_RATE_LIMIT {
        spec_retry_after_slot(err.retry_after_ms)
    } else {
        THETADATADX_RETRY_AFTER_NONE
    }
}

/// Record an SDK failure: its message, the code it routes to, and, for a
/// rate-limit failure only, its retry-after hint.
pub fn set_error_from(slot: &mut LastError, err: &SdkError)
    ensures
        final(slot)@ == (LastErrorView {
            message: Some(spec_error_cstring(err.message@)),
            code: spec_error_code(err.kind),
            retry_after_ms: spec_slot_retry_after(*err),
        }),
{
    let stored = error_cstring(err.message.as_slice());
    let code = error_code_for(&err.kind);
    let retry = if code == THETADATADX_ERR_RATE_LIMIT {
        retry_after_slot_value(err.retry_after_ms)
    } else {
        THETADATADX_RETRY_AFTER_NONE
    };
    *slot = LastError { message: Some(stored), code: code, retry_after_ms: retry };
}

/// Reset the retry-after hint to "no hint", leaving message and code as
/// they are.
pub fn clear_retry_after(slot: &mut LastError)
    ensures
        final(slot)@ == (LastErrorView {
            retry_after_ms: THETADATADX_RETRY_AFTER_NONE,
            ..old(slot)@
        }),
{
    let mut prev = LastError::new();
    std::mem::swap(&mut prev, slot);
    proof { use_type_invariant(&prev); }
    let LastError { message, code, retry_after_ms: _ } = prev;
    *slot = LastError { message: message, code: code, retry_after_ms: THETADATADX_RETRY_AFTER_NONE };
}

/// Empty the slot: no message, `THETADATADX_ERR_NONE`, no retry hint.
pub fn clear_error(slot: &mut LastError)
    ensures
        final(slot)@ == LastErrorView::cleared(),
{
    *slot = LastError::new();
}

/// Whenever the slot reports a non-zero code it also holds a message, so a
/// caller that sees a failure code always finds the matching text.
pub proof fn lemma_code_implies_message(v: LastErrorView)
    requires
        v.wf(),
    ensures
        v.code != THETADATADX_ERR_NONE ==> v.message is Some,
        v.retry_after_ms != THETADATADX_RETRY_AFTER_NONE ==> v.message is Some,
{
}

} // verus!
