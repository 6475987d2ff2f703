//! Decoding of the C string arguments every entry point receives.
//!
//! The binding layer reads each `*const c_char` argument into a [`CStrArg`]
//! (null, not UTF-8, or the decoded text); the rules for turning those into
//! values or errors live here.

use vstd::prelude::*;
use crate::error_slot::{after_set_error, set_error, LastError};
use crate::text::{concat, format_u64, push_bytes, spec_decimal, utf8};

verus! {

/// A C string argument as read from the caller.
pub enum CStrArg {
    /// The pointer was null.
    Null,
    /// The bytes were not valid UTF-8; carries the rendered decoding error.
    InvalidUtf8(Vec<u8>),
    /// The decoded text.
    Text(String),
}

/// The message for a required argument that was null.
pub open spec fn null_arg_message(name: Seq<u8>) -> Seq<u8> {
    name + utf8(" is null")
}

/// The message for a required argument that was not UTF-8.
pub open spec fn invalid_utf8_message(name: Seq<u8>, detail: Seq<u8>) -> Seq<u8> {
    name + utf8(" is not valid UTF-8: ") + detail
}

/// Extract a required string argument named `name`. A null pointer or
/// invalid UTF-8 records an error naming the argument and yields `None`;
/// valid text is returned and the slot is left as it was.
pub fn require_cstr(slot: &mut LastError, name: &[u8], arg: CStrArg) -> (r: Option<String>)
    ensures
        match arg {
            CStrArg::Text(t) => r == Some(t) && final(slot)@ == old(slot)@,
            CStrArg::Null => r is None && final(slot)@ == after_set_error(null_arg_message(name@)),
            CStrArg::InvalidUtf8(d) => r is None && final(slot)@ == after_set_error(
                invalid_utf8_message(name@, d@),
            ),
        },
{
    match arg {
        CStrArg::Text(t) => Some(t),
        CStrArg::Null => {
            let msg = concat(name, " is null".as_bytes());
            set_error(slot, msg.as_slice());
            None
        },
        CStrArg::InvalidUtf8(d) => {
            let mut msg = concat(name, " is not valid UTF-8: ".as_bytes());
            push_bytes(&mut msg, d.as_slice());
            set_error(slot, msg.as_slice());
            None
        },
    }
}

/// The message for a handle argument that was null.
pub open spec fn null_handle_message(name: Seq<u8>) -> Seq<u8> {
    name + utf8(" handle is null")
}

/// Check a required handle argument named `name`: a null handle records an
/// error naming it and yields `false`; otherwise the slot is untouched.
pub fn require_handle(slot: &mut LastError, name: &[u8], is_null: bool) -> (ok: bool)
    ensures
        ok == !is_null,
        is_null ==> final(slot)@ == after_set_error(null_handle_message(name@)),
        !is_null ==> final(slot)@ == old(slot)@,
{
    if is_null {
        let msg = concat(name, " handle is null".as_bytes());
        set_error(slot, msg.as_slice());
        false
    } else {
        true
    }
}

/// A C array of C strings as read from the caller.
pub enum CStrArray {
    /// The array pointer was null; carries the length the caller passed.
    Null { len: usize },
    /// The decoded elements.
    Items(Vec<CStrArg>),
}

/// Whether an element decoded to text.
pub open spec fn is_text(a: CStrArg) -> bool {
    a is Text
}

/// The text of an element that decoded to text.
pub open spec fn text_of(a: CStrArg) -> Seq<char> {
    match a {
        CStrArg::Text(t) => t@,
        _ => Seq::empty(),
    }
}

/// `k` is the first element of `items` that did not decode to text.
pub open spec fn first_bad_element(items: Seq<CStrArg>, k: int) -> bool {
    &&& 0 <= k < items.len()
    &&& !is_text(items[k])
    &&& forall|j: int| 0 <= j < k ==> is_text(#[trigger] items[j])
}

/// The message for an element that was null or not UTF-8.
pub open spec fn bad_symbol_message(index: nat) -> Seq<u8> {
    utf8("symbols[") + spec_decimal(index) + utf8("] is null or invalid UTF-8")
}

/// The symbols an array decodes to, or the refusal message.
pub open spec fn spec_decode_symbols(symbols: CStrArray) -> Result<Seq<Seq<char>>, Seq<u8>> {
    match symbols {
        CStrArray::Null { len } => if len == 0 {
            Ok(Seq::empty())
        } else {
            Err(utf8("symbols array pointer is null"))
        },
        CStrArray::Items(items) => if forall|i: int| 0 <= i < items@.len() ==> is_text(#[trigger] items@[i]) {
            Ok(items@.map_values(|a: CStrArg| text_of(a)))
        } else {
            Err(bad_symbol_message((choose|k: int| first_bad_element(items@, k)) as nat))
        },
    }
}

/// Decode an array of symbols. A null array with length zero is the empty
/// list (the empty-slice convention of several host languages); a null
/// array with a non-zero length, or any element that is null or not UTF-8,
/// is refused (the first bad element is named).
pub fn decode_symbol_array(symbols: CStrArray) -> (r: Result<Vec<String>, Vec<u8>>)
    ensures
        match spec_decode_symbols(symbols) {
            Ok(v) => r matches Ok(out) && out@.len() == v.len()
                && forall|i: int| 0 <= i < v.len() ==> #[trigger] out@[i]@ == v[i],
            Err(m) => r matches Err(e) && e@ == m,
        },
{
    match symbols {
        CStrArray::Null { len } => {
            if len == 0 {
                Ok(Vec::new())
            } else {
                Err(crate::text::bytes_of("symbols array pointer is null".as_bytes()))
            }
        },
        CStrArray::Items(items) => {
            let mut out: Vec<String> = Vec::with_capacity(items.len());
            let mut i: usize = 0;
            let mut bad: bool = false;
            while i < items.len()
                invariant
                    i <= items@.len(),
                    out@.len() == i,
                    forall|j: int| 0 <= j < i ==> is_text(#[trigger] items@[j]),
                    forall|j: int| 0 <= j < i ==> #[trigger] out@[j]@ == text_of(items@[j]),
                    bad ==> i < items@.len() && !is_text(items@[i as int]),
                ensures
                    bad || i == items@.len(),
                decreases items@.len() - i,
            {
                match &items[i] {
                    CStrArg::Text(t) => {
                        let copy = t.clone();
                        out.push(copy);
                        i = i + 1;
                    },
                    _ => {
                        bad = true;
                        break;
                    },
                }
            }
            if bad {
                let mut msg = concat("symbols[".as_bytes(), format_u64(i as u64).as_slice());
                push_bytes(&mut msg, "] is null or invalid UTF-8".as_bytes());
                assert(msg@ =~= bad_symbol_message(i as nat));
                assert(first_bad_element(items@, i as int));
                proof {
                    let k = choose|k: int| first_bad_element(items@, k);
                    lemma_first_bad_unique(items@, k, i as int);
                }
                Err(msg)
            } else {
                Ok(out)
            }
        },
    }
}


/// There is only one first bad element.
proof fn lemma_first_bad_unique(items: Seq<CStrArg>, a: int, b: int)
    requires
        first_bad_element(items, a),
        first_bad_element(items, b),
    ensures
        a == b,
{
    if a < b {
        assert(is_text(items[a]));
    } else if b < a {
        assert(is_text(items[b]));
    }
}

/// Decode a symbol array for the C ABI, recording a refusal in the
/// thread's error slot.
pub fn require_symbol_array(slot: &mut LastError, symbols: CStrArray) -> (r: Option<Vec<String>>)
    ensures
        match spec_decode_symbols(symbols) {
            Ok(v) => r matches Some(out) && out@.len() == v.len()
                && (forall|i: int| 0 <= i < v.len() ==> #[trigger] out@[i]@ == v[i])
                && final(slot)@ == old(slot)@,
            Err(m) => r is None && final(slot)@ == after_set_error(m),
        },
{
    match decode_symbol_array(symbols) {
        Ok(v) => Some(v),
        Err(m) => {
            set_error(slot, m.as_slice());
            None
        },
    }
}

} // verus!
