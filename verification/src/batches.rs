//! Decisions of the pull-based Arrow batch reader's C entry points.
//!
//! The binding layer pulls batches from the SDK and serialises them to
//! Arrow IPC; these functions validate the arguments, choose the status
//! code and decide what the out-parameter receives.

use vstd::prelude::*;
use crate::error_slot::{after_set_error, set_error, set_error_from, LastError, LastErrorView};
use crate::reconnect::after_sdk_error;
use crate::sdk_error::SdkError;
use crate::text::{concat, format_i64, push_bytes, spec_signed_decimal, utf8};

verus! {

/// Backpressure selector: block the reader (no queue-side drops).
pub const THETADATADX_BACKPRESSURE_BLOCK: i32 = 0;
/// Backpressure selector: bounded buffer that drops the oldest batch.
pub const THETADATADX_BACKPRESSURE_DROP_OLDEST: i32 = 1;

/// The reader's backpressure policy.
#[derive(Clone, Copy, Debug, PartialEq, Eq, Structural)]
pub enum Backpressure {
    Block,
    DropOldest { capacity: usize },
}

/// What the reader is built with.
#[derive(Clone, Copy, Debug, PartialEq, Eq, Structural)]
pub struct BatchReaderParams {
    /// Rows per batch.
    pub batch_size: usize,
    /// Partial-batch flush deadline.
    pub linger_ms: u64,
    pub backpressure: Backpressure,
}

pub open spec fn unknown_backpressure_message(code: i32) -> Seq<u8> {
    utf8("unknown backpressure value ") + spec_signed_decimal(code as int)
        + utf8("; expected 0 (block) or 1 (drop-oldest)")
}

/// At least one.
pub open spec fn at_least_one(n: usize) -> usize {
    if n == 0 { 1 } else { n }
}

/// Validate the arguments of `thetadatadx_client_batches_open`. A zero
/// batch size or drop-oldest capacity is raised to one; an unknown
/// backpressure selector or a null client is refused.
pub fn batches_open_params(
    slot: &mut LastError,
    handle_present: bool,
    batch_size: usize,
    linger_ms: u64,
    backpressure: i32,
    capacity: usize,
) -> (r: Option<BatchReaderParams>)
    ensures
        !handle_present ==> r is None && final(slot)@ == after_set_error(utf8("client handle is null")),
        handle_present && backpressure == THETADATADX_BACKPRESSURE_BLOCK ==> final(slot)@ == old(slot)@
            && r == Some(BatchReaderParams {
                batch_size: at_least_one(batch_size),
                linger_ms: linger_ms,
                backpressure: Backpressure::Block,
            }),
        handle_present && backpressure == THETADATADX_BACKPRESSURE_DROP_OLDEST ==> final(slot)@ == old(slot)@
            && r == Some(BatchReaderParams {
                batch_size: at_least_one(batch_size),
                linger_ms: linger_ms,
                backpressure: Backpressure::DropOldest { capacity: at_least_one(capacity) },
            }),
        handle_present && backpressure != THETADATADX_BACKPRESSURE_BLOCK
            && backpressure != THETADATADX_BACKPRESSURE_DROP_OLDEST ==> r is None
            && final(slot)@ == after_set_error(unknown_backpressure_message(backpressure)),
{
    if !handle_present {
        set_error(slot, "client handle is null".as_bytes());
        return None;
    }
    let policy = if backpressure == THETADATADX_BACKPRESSURE_BLOCK {
        Backpressure::Block
    } else if backpressure == THETADATADX_BACKPRESSURE_DROP_OLDEST {
        Backpressure::DropOldest { capacity: if capacity == 0 { 1 } else { capacity } }
    } else {
        let mut msg = concat("unknown backpressure value ".as_bytes(), format_i64(backpressure as i64).as_slice());
        push_bytes(&mut msg, "; expected 0 (block) or 1 (drop-oldest)".as_bytes());
        set_error(slot, msg.as_slice());
        return None;
    };
    Some(BatchReaderParams {
        batch_size: if batch_size == 0 { 1 } else { batch_size },
        linger_ms: linger_ms,
        backpressure: policy,
    })
}

/// What a blocking pull produced.
pub enum PullOutcome {
    /// A batch, serialised to IPC bytes (or the serialisation error text).
    Batch(Result<Vec<u8>, Vec<u8>>),
    /// The stream ended cleanly.
    End,
    /// The reader failed.
    Failed(SdkError),
}

/// The status of `thetadatadx_record_batch_stream_next_ipc` and what its
/// out-parameter holds (`None`: the empty buffer).
pub open spec fn spec_next_ipc(out_present: bool, stream_present: bool, pulled: PullOutcome) -> (i32, Option<Seq<u8>>) {
    if !out_present || !stream_present {
        (-1i32, None)
    } else {
        match pulled {
            PullOutcome::Batch(Ok(bytes)) => (0i32, Some(bytes@)),
            PullOutcome::Batch(Err(_)) => (-1i32, None),
            PullOutcome::End => (1i32, None),
            PullOutcome::Failed(_) => (-1i32, None),
        }
    }
}

/// The error the pull records, if any.
pub open spec fn spec_next_ipc_error(out_present: bool, stream_present: bool, pulled: PullOutcome) -> Option<LastErrorView> {
    if !out_present {
        Some(after_set_error(utf8("out pointer is null")))
    } else if !stream_present {
        Some(after_set_error(utf8("stream handle is null")))
    } else {
        match pulled {
            PullOutcome::Batch(Err(msg)) => Some(after_set_error(msg@)),
            PullOutcome::Failed(e) => Some(after_sdk_error(e)),
            _ => None,
        }
    }
}

/// Conclude a pull: `0` with the batch bytes, `1` on a clean end, `-1` on
/// a null pointer or a failure (the out-parameter then stays empty). The
/// binding layer passes `PullOutcome::End` when it did not pull because a
/// pointer was null; the outcome is then ignored.
pub fn next_ipc_result(
    slot: &mut LastError,
    out_present: bool,
    stream_present: bool,
    pulled: PullOutcome,
) -> (r: (i32, Option<Vec<u8>>))
    ensures
        r.0 == spec_next_ipc(out_present, stream_present, pulled).0,
        (match r.1 {
            Some(v) => Some(v@),
            None => None,
        }) == spec_next_ipc(out_present, stream_present, pulled).1,
        match spec_next_ipc_error(out_present, stream_present, pulled) {
            Some(v) => final(slot)@ == v,
            None => final(slot)@ == old(slot)@,
        },
{
    if !out_present {
        set_error(slot, "out pointer is null".as_bytes());
        return (-1, None);
    }
    if !stream_present {
        set_error(slot, "stream handle is null".as_bytes());
        return (-1, None);
    }
    match pulled {
        PullOutcome::Batch(Ok(bytes)) => (0, Some(bytes)),
        PullOutcome::Batch(Err(msg)) => {
            set_error(slot, msg.as_slice());
            (-1, None)
        },
        PullOutcome::End => (1, None),
        PullOutcome::Failed(e) => {
            set_error_from(slot, &e);
            (-1, None)
        },
    }
}

/// Conclude `thetadatadx_record_batch_stream_schema_ipc`: `0` with the
/// schema bytes, `-1` on a null pointer or a serialisation failure.
pub fn schema_ipc_result(
    slot: &mut LastError,
    out_present: bool,
    stream_present: bool,
    serialised: Result<Vec<u8>, Vec<u8>>,
) -> (r: (i32, Option<Vec<u8>>))
    ensures
        !out_present ==> r.0 == -1 && r.1 is None && final(slot)@ == after_set_error(utf8("out pointer is null")),
        out_present && !stream_present ==> r.0 == -1 && r.1 is None
            && final(slot)@ == after_set_error(utf8("stream handle is null")),
        out_present && stream_present ==> match serialised {
            Ok(bytes) => r.0 == 0 && r.1 == Some(bytes) && final(slot)@ == old(slot)@,
            Err(msg) => r.0 == -1 && r.1 is None && final(slot)@ == after_set_error(msg@),
        },
{
    if !out_present {
        set_error(slot, "out pointer is null".as_bytes());
        return (-1, None);
    }
    if !stream_present {
        set_error(slot, "stream handle is null".as_bytes());
        return (-1, None);
    }
    match serialised {
        Ok(bytes) => (0, Some(bytes)),
        Err(msg) => {
            set_error(slot, msg.as_slice());
            (-1, None)
        },
    }
}

/// `thetadatadx_record_batch_stream_dropped`: the reader's count, or `0`
/// with an error for a null handle.
pub fn dropped_count(slot: &mut LastError, count: Option<u64>) -> (r: u64)
    ensures
        match count {
            Some(n) => r == n && final(slot)@ == old(slot)@,
            None => r == 0 && final(slot)@ == after_set_error(utf8("stream handle is null")),
        },
{
    match count {
        Some(n) => n,
        None => {
            set_error(slot, "stream handle is null".as_bytes());
            0
        },
    }
}

} // verus!
