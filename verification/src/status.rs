//! Health readings the C handles report through out-parameters.

use vstd::prelude::*;
use crate::error_slot::{after_set_error, set_error, LastError};
use crate::text::utf8;

verus! {

pub open spec fn null_out_param_message() -> Seq<u8> {
    utf8("handle or out-parameter pointer is null")
}

/// The answer of `*_millis_since_last_event`: the status code and the
/// value to store through the out-parameter (`None`: leave it untouched).
pub fn millis_since_last_event_reading(
    slot: &mut LastError,
    pointers_present: bool,
    value: Option<u64>,
) -> (r: (i32, Option<u64>))
    ensures
        !pointers_present ==> r == (-1i32, None::<u64>)
            && final(slot)@ == after_set_error(null_out_param_message()),
        pointers_present ==> final(slot)@ == old(slot)@ && r == (match value {
            Some(ms) => (0i32, Some(ms)),
            None => (1i32, Some(0u64)),
        }),
{
    if !pointers_present {
        set_error(slot, "handle or out-parameter pointer is null".as_bytes());
        return (-1, None);
    }
    match value {
        Some(ms) => (0, Some(ms)),
        None => (1, Some(0)),
    }
}

} // verus!
