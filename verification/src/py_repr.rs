//! The `repr` strings of the Python classes.

use vstd::prelude::*;
use crate::text::{concat, format_u64, push_bytes, spec_decimal, utf8};

verus! {

/// The streaming part of a client repr.
pub open spec fn streaming_part(streaming: bool) -> Seq<u8> {
    if streaming { utf8("streaming=connected") } else { utf8("streaming=none") }
}

/// `Client.__repr__`: `None` when the client was closed, otherwise whether
/// it is streaming.
pub fn client_repr(streaming: Option<bool>) -> (r: Vec<u8>)
    ensures
        r@ == (match streaming {
            None => utf8("Client(closed)"),
            Some(s) => utf8("Client(market_data=connected, ") + streaming_part(s) + utf8(")"),
        }),
{
    match streaming {
        None => crate::text::bytes_of("Client(closed)".as_bytes()),
        Some(s) => {
            let part = if s { "streaming=connected" } else { "streaming=none" };
            let mut out = concat("Client(market_data=connected, ".as_bytes(), part.as_bytes());
            push_bytes(&mut out, ")".as_bytes());
            out
        },
    }
}

/// The older SDK's `ThetaDataDx.__repr__`.
pub fn unified_sdk_repr(streaming: bool) -> (r: Vec<u8>)
    ensures
        r@ == utf8("ThetaDataDx(historical=connected, ") + streaming_part(streaming) + utf8(")"),
{
    let part = if streaming { "streaming=connected" } else { "streaming=none" };
    let mut out = concat("ThetaDataDx(historical=connected, ".as_bytes(), part.as_bytes());
    push_bytes(&mut out, ")".as_bytes());
    out
}

/// `StreamingClient.__repr__`: streaming state and how many hosts the
/// connect parameters list.
pub fn streaming_client_repr(streaming: bool, hosts: u64) -> (r: Vec<u8>)
    ensures
        r@ == utf8("StreamingClient(streaming=")
            + (if streaming { utf8("connected") } else { utf8("none") })
            + utf8(", hosts=") + spec_decimal(hosts as nat) + utf8(")"),
{
    let state = if streaming { "connected" } else { "none" };
    let mut out = concat("StreamingClient(streaming=".as_bytes(), state.as_bytes());
    push_bytes(&mut out, ", hosts=".as_bytes());
    push_bytes(&mut out, format_u64(hosts).as_slice());
    push_bytes(&mut out, ")".as_bytes());
    out
}

/// `Config.__repr__`: the market-data endpoint and the number of streaming
/// hosts. `legacy` selects the older SDK's wording (`mdds=`, `fpss_hosts=`).
pub fn config_repr(legacy: bool, host: &[u8], port: u16, hosts: u64) -> (r: Vec<u8>)
    ensures
        r@ == (if legacy { utf8("Config(mdds=") } else { utf8("Config(market_data=") }) + host@ + utf8(":")
            + spec_decimal(port as nat)
            + (if legacy { utf8(", fpss_hosts=") } else { utf8(", streaming_hosts=") })
            + spec_decimal(hosts as nat) + utf8(")"),
{
    let head = if legacy { "Config(mdds=" } else { "Config(market_data=" };
    let mid = if legacy { ", fpss_hosts=" } else { ", streaming_hosts=" };
    let mut out = concat(head.as_bytes(), host);
    push_bytes(&mut out, ":".as_bytes());
    push_bytes(&mut out, format_u64(port as u64).as_slice());
    push_bytes(&mut out, mid.as_bytes());
    push_bytes(&mut out, format_u64(hosts).as_slice());
    push_bytes(&mut out, ")".as_bytes());
    out
}

/// `Credentials.__repr__`: the email is never shown.
pub fn credentials_repr() -> (r: &'static str)
    ensures
        r@ == "Credentials(email=<redacted>)"@,
{
    "Credentials(email=<redacted>)"
}

} // verus!
