//! The rules of the older `tdx_*` C ABI.
//!
//! That surface reports failures through a thread-local message only (no
//! error code), drops a message that cannot become a C string, and names
//! its handles and arguments in its own wording.

use vstd::prelude::*;
use crate::active::{entries_refusal, entries_view, has_nul, spec_entries_refusal, SubscriptionEntry};
use crate::cstr::{decode_symbol_array, spec_decode_symbols, CStrArg, CStrArray};
use crate::std_text::{debug_format, debug_quoted, to_uppercase, unicode_uppercase};
use crate::subscription::{
    lemma_same_bytes_same_text, lemma_same_text_same_bytes, spec_full_sec_type, SecType,
};
use crate::text::{const_bytes_eq, concat, contains_nul, push_bytes, utf8};

verus! {

/// The message a set stores: the text itself, or nothing when it holds a
/// NUL and so cannot become a C string.
pub open spec fn stored_message(msg: Seq<u8>) -> Option<Seq<u8>> {
    if has_nul(msg) { None } else { Some(msg) }
}

/// The thread's last error of the older ABI.
pub struct LegacyError {
    message: Option<Vec<u8>>,
}

impl View for LegacyError {
    type V = Option<Seq<u8>>;

    closed spec fn view(&self) -> Option<Seq<u8>> {
        match self.message {
            Some(m) => Some(m@),
            None => None,
        }
    }
}

impl LegacyError {
    #[verifier::type_invariant]
    spec fn inv(&self) -> bool {
        self@ matches Some(m) ==> !has_nul(m)
    }

    /// No error yet.
    pub fn new() -> (s: LegacyError)
        ensures
            s@ is None,
    {
        LegacyError { message: None }
    }

    /// Record `msg` (or nothing, when it holds a NUL).
    pub fn set_error(&mut self, msg: &[u8])
        ensures
            final(self)@ == stored_message(msg@),
    {
        if contains_nul(msg) {
            *self = LegacyError { message: None };
        } else {
            *self = LegacyError { message: Some(crate::text::bytes_of(msg)) };
        }
    }

    /// The message `tdx_last_error` hands out (null when `None`).
    pub fn message(&self) -> (m: Option<&Vec<u8>>)
        ensures
            match m {
                Some(v) => self@ == Some(v@),
                None => self@ is None,
            },
    {
        match &self.message {
            Some(v) => Some(v),
            None => None,
        }
    }
}

/// The handles of the older ABI, which can arrive null.
#[derive(Clone, Copy, Debug, PartialEq, Eq, Structural)]
pub enum LegacyHandle {
    Credentials,
    Config,
    Unified,
    Fpss,
}

/// The message for a null handle.
pub open spec fn legacy_null_text(h: LegacyHandle) -> Seq<u8> {
    match h {
        LegacyHandle::Credentials => utf8("credentials handle is null"),
        LegacyHandle::Config => utf8("config handle is null"),
        LegacyHandle::Unified => utf8("unified handle is null"),
        LegacyHandle::Fpss => utf8("FPSS handle is null"),
    }
}

/// Check a handle argument: a null one records its message.
pub fn require_legacy_handle(slot: &mut LegacyError, which: LegacyHandle, present: bool) -> (ok: bool)
    ensures
        ok == present,
        present ==> final(slot)@ == old(slot)@,
        !present ==> final(slot)@ == stored_message(legacy_null_text(which)),
{
    if !present {
        match which {
            LegacyHandle::Credentials => slot.set_error("credentials handle is null".as_bytes()),
            LegacyHandle::Config => slot.set_error("config handle is null".as_bytes()),
            LegacyHandle::Unified => slot.set_error("unified handle is null".as_bytes()),
            LegacyHandle::Fpss => slot.set_error("FPSS handle is null".as_bytes()),
        }
    }
    present
}

/// Decode a symbol argument: null or non-UTF-8 text records one message
/// for both cases.
pub fn require_legacy_symbol(slot: &mut LegacyError, arg: CStrArg) -> (r: Option<String>)
    ensures
        match arg {
            CStrArg::Text(t) => r == Some(t) && final(slot)@ == old(slot)@,
            _ => r is None && final(slot)@ == stored_message(utf8("symbol is null or invalid UTF-8")),
        },
{
    match arg {
        CStrArg::Text(t) => Some(t),
        _ => {
            slot.set_error("symbol is null or invalid UTF-8".as_bytes());
            None
        },
    }
}

/// Check that the streaming client of an FPSS handle has not been shut
/// down.
pub fn require_live_fpss_client(slot: &mut LegacyError, live: bool) -> (ok: bool)
    ensures
        ok == live,
        live ==> final(slot)@ == old(slot)@,
        !live ==> final(slot)@ == stored_message(utf8("FPSS client is shut down")),
{
    if !live {
        slot.set_error("FPSS client is shut down".as_bytes());
    }
    live
}

/// Check that the unified handle has started streaming before an event is
/// polled.
pub fn require_started_stream(slot: &mut LegacyError, started: bool) -> (ok: bool)
    ensures
        ok == started,
        started ==> final(slot)@ == old(slot)@,
        !started ==> final(slot)@ == stored_message(
            utf8("streaming not started -- call tdx_unified_start_streaming() first"),
        ),
{
    if !started {
        slot.set_error("streaming not started -- call tdx_unified_start_streaming() first".as_bytes());
    }
    started
}

/// The C result of a call into the SDK that yields a request id: the id,
/// or `-1` with the SDK's rendered error recorded.
pub fn legacy_call_status(slot: &mut LegacyError, r: Result<i32, Vec<u8>>) -> (code: i32)
    ensures
        match r {
            Ok(id) => code == id && final(slot)@ == old(slot)@,
            Err(text) => code == -1 && final(slot)@ == stored_message(text@),
        },
{
    match r {
        Ok(id) => id,
        Err(text) => {
            slot.set_error(text.as_slice());
            -1
        },
    }
}

/// How the streaming writer flushes.
#[derive(Clone, Copy, Debug, PartialEq, Eq, Structural)]
pub enum FlushMode {
    /// Flush only on the periodic ping.
    Batched,
    /// Flush after every frame.
    Immediate,
}

/// The flush mode a C integer selects: `1` is immediate, every other value
/// batched.
pub fn flush_mode_from_code(mode: i32) -> (m: FlushMode)
    ensures
        m == (if mode == 1 { FlushMode::Immediate } else { FlushMode::Batched }),
{
    if mode == 1 {
        FlushMode::Immediate
    } else {
        FlushMode::Batched
    }
}

/// Which entry points a security-type argument arrived on; they word
/// their refusals differently.
#[derive(Clone, Copy, Debug, PartialEq, Eq, Structural)]
pub enum SecTypeSurface {
    /// The `tdx_unified_*_full_*` calls.
    Unified,
    /// The `tdx_fpss_*_full_*` calls.
    Fpss,
}

/// The refusal for a name that is no streamable security type, quoting the
/// upper-cased name.
pub open spec fn unknown_sec_type_message(upper: Seq<char>) -> Seq<u8> {
    utf8("unknown sec_type: ") + vstd::utf8::encode_utf8(debug_quoted(upper))
        + utf8(" (expected STOCK, OPTION, or INDEX)")
}

/// Resolve a security-type name, matched after Unicode upper-casing
/// against `STOCK`, `OPTION` and `INDEX`; anything else yields the
/// refusal message. (The Python SDK raises it as `ValueError`.)
pub fn sec_type_from_name(name: &str) -> (r: Result<SecType, Vec<u8>>)
    ensures
        match spec_full_sec_type(unicode_uppercase(name@)) {
            Some(st) => r == Ok::<SecType, Vec<u8>>(st),
            None => r matches Err(m) && m@ == unknown_sec_type_message(unicode_uppercase(name@)),
        },
{
    let upper = to_uppercase(name);
    let u = upper.as_str();
    let b = u.as_bytes();
    if const_bytes_eq(b, "STOCK".as_bytes()) {
        proof { lemma_same_bytes_same_text(u, "STOCK"); }
        Ok(SecType::Stock)
    } else if const_bytes_eq(b, "OPTION".as_bytes()) {
        proof { lemma_same_bytes_same_text(u, "OPTION"); }
        Ok(SecType::Option)
    } else if const_bytes_eq(b, "INDEX".as_bytes()) {
        proof { lemma_same_bytes_same_text(u, "INDEX"); }
        Ok(SecType::Index)
    } else {
        proof {
            lemma_same_text_same_bytes(u, "STOCK");
            lemma_same_text_same_bytes(u, "OPTION");
            lemma_same_text_same_bytes(u, "INDEX");
        }
        let quoted = debug_format(u);
        let mut msg = concat("unknown sec_type: ".as_bytes(), quoted.as_str().as_bytes());
        push_bytes(&mut msg, " (expected STOCK, OPTION, or INDEX)".as_bytes());
        Err(msg)
    }
}

/// What a security-type argument yields: the type, or the message
/// recorded.
pub open spec fn spec_parse_legacy_sec_type(surface: SecTypeSurface, arg: CStrArg) -> Result<SecType, Seq<u8>> {
    match arg {
        CStrArg::Text(t) => match spec_full_sec_type(unicode_uppercase(t@)) {
            Some(st) => Ok(st),
            None => Err(match surface {
                SecTypeSurface::Unified => utf8("invalid sec_type: expected STOCK, OPTION, or INDEX"),
                SecTypeSurface::Fpss => unknown_sec_type_message(unicode_uppercase(t@)),
            }),
        },
        _ => Err(match surface {
            SecTypeSurface::Unified => utf8("sec_type is null"),
            SecTypeSurface::Fpss => utf8("sec_type is null or invalid UTF-8"),
        }),
    }
}

/// Decode the security-type argument of a full-stream call; a null,
/// non-UTF-8 or unknown name records the surface's refusal.
pub fn parse_legacy_sec_type(slot: &mut LegacyError, surface: SecTypeSurface, arg: CStrArg) -> (r: Option<SecType>)
    ensures
        match spec_parse_legacy_sec_type(surface, arg) {
            Ok(st) => r == Some(st) && final(slot)@ == old(slot)@,
            Err(msg) => r is None && final(slot)@ == stored_message(msg),
        },
{
    match arg {
        CStrArg::Text(t) => match sec_type_from_name(t.as_str()) {
            Ok(st) => Some(st),
            Err(m) => {
                match surface {
                    SecTypeSurface::Unified => {
                        slot.set_error("invalid sec_type: expected STOCK, OPTION, or INDEX".as_bytes());
                    },
                    SecTypeSurface::Fpss => slot.set_error(m.as_slice()),
                }
                None
            },
        },
        _ => {
            match surface {
                SecTypeSurface::Unified => slot.set_error("sec_type is null".as_bytes()),
                SecTypeSurface::Fpss => slot.set_error("sec_type is null or invalid UTF-8".as_bytes()),
            }
            None
        },
    }
}

/// Decode an array of symbols for the older ABI, recording a refusal in
/// its message slot.
pub fn parse_symbol_array(slot: &mut LegacyError, symbols: CStrArray) -> (r: Option<Vec<String>>)
    ensures
        match spec_decode_symbols(symbols) {
            Ok(v) => r matches Some(out) && out@.len() == v.len()
                && (forall|i: int| 0 <= i < v.len() ==> #[trigger] out@[i]@ == v[i])
                && final(slot)@ == old(slot)@,
            Err(m) => r is None && final(slot)@ == stored_message(m),
        },
{
    match decode_symbol_array(symbols) {
        Ok(v) => Some(v),
        Err(m) => {
            slot.set_error(m.as_slice());
            None
        },
    }
}

/// Check the entries the older ABI reports before they become C strings,
/// recording a refusal in its message slot.
pub fn check_legacy_entries(slot: &mut LegacyError, entries: &Vec<SubscriptionEntry>) -> (ok: bool)
    ensures
        ok == (spec_entries_refusal(entries_view(entries@)) is None),
        match spec_entries_refusal(entries_view(entries@)) {
            None => final(slot)@ == old(slot)@,
            Some(m) => final(slot)@ == stored_message(m),
        },
{
    match entries_refusal(entries) {
        None => true,
        Some(m) => {
            slot.set_error(m.as_bytes());
            false
        },
    }
}

} // verus!
