//! The buffered events the Python SDK queues for `next_event()`.
//!
//! Tick events keep their named fields; prices stay in wire form (integer
//! plus price type) and the binding layer decodes them to floats when it
//! builds the Python dict. Everything that is not a tick becomes a
//! "simple" event: a snake_case kind label, an optional detail text and an
//! optional id.

use vstd::prelude::*;
use crate::ffi_event::{spec_control_parts, spec_event_kind, TdxFpssEventKind};
use crate::fpss_event::{FpssControl, FpssData, FpssEvent};

verus! {

/// One queued event.
#[derive(Clone, Debug)]
pub enum BufferedEvent {
    Quote {
        contract_id: i32,
        ms_of_day: i32,
        bid_size: i32,
        bid_exchange: i32,
        bid: i32,
        bid_condition: i32,
        ask_size: i32,
        ask_exchange: i32,
        ask: i32,
        ask_condition: i32,
        price_type: i32,
        date: i32,
    },
    Trade {
        contract_id: i32,
        ms_of_day: i32,
        sequence: i32,
        condition: i32,
        size: i32,
        exchange: i32,
        price_raw: i32,
        price_type: i32,
        condition_flags: i32,
        price_flags: i32,
        volume_type: i32,
        records_back: i32,
        date: i32,
    },
    OpenInterest { contract_id: i32, ms_of_day: i32, open_interest: i32, date: i32 },
    Ohlcvc {
        contract_id: i32,
        ms_of_day: i32,
        open: i32,
        high: i32,
        low: i32,
        close: i32,
        price_type: i32,
        volume: i64,
        count: i64,
        date: i32,
    },
    RawData { code: u8, payload: Vec<u8> },
    Simple { kind: &'static str, detail: Option<Vec<u8>>, id: Option<i32> },
}

/// The label, detail and id a non-tick event is queued with.
pub open spec fn spec_simple_parts(e: FpssEvent) -> (Seq<char>, Option<Seq<u8>>, Option<i32>) {
    match e {
        FpssEvent::Data(_) => ("unknown_data"@, None, None),
        FpssEvent::Control(c) => match c {
            FpssControl::LoginSuccess { permissions } => ("login_success"@, Some(permissions@), None),
            FpssControl::ContractAssigned { id, contract } => ("contract_assigned"@, Some(contract@), Some(id)),
            FpssControl::ReqResponse { req_id, result } => ("req_response"@, Some(result@), Some(req_id)),
            FpssControl::MarketOpen => ("market_open"@, None, None),
            FpssControl::MarketClose => ("market_close"@, None, None),
            FpssControl::ServerError { message } => ("server_error"@, Some(message@), None),
            FpssControl::Disconnected { reason } => ("disconnected"@, Some(reason@), None),
            FpssControl::Error { message } => ("error"@, Some(message@), None),
            FpssControl::Other => ("unknown_control"@, None, None),
        },
        _ => ("unknown"@, None, None),
    }
}

/// Whether an event is queued as a tick or raw frame (as opposed to a
/// simple event).
pub open spec fn is_tick_or_raw(e: FpssEvent) -> bool {
    match e {
        FpssEvent::Data(FpssData::Other) => false,
        FpssEvent::Data(_) => true,
        FpssEvent::RawData { .. } => true,
        _ => false,
    }
}

/// The bytes of an optional owned text.
pub open spec fn opt_text(o: Option<Vec<u8>>) -> Option<Seq<u8>> {
    match o {
        Some(v) => Some(v@),
        None => None,
    }
}

/// What `fpss_event_to_buffered` queues for `e`.
pub open spec fn buffered_post(e: FpssEvent, out: BufferedEvent) -> bool {
    match e {
        FpssEvent::Data(FpssData::Quote(q)) => out == (BufferedEvent::Quote {
            contract_id: q.contract_id,
            ms_of_day: q.ms_of_day,
            bid_size: q.bid_size,
            bid_exchange: q.bid_exchange,
            bid: q.bid,
            bid_condition: q.bid_condition,
            ask_size: q.ask_size,
            ask_exchange: q.ask_exchange,
            ask: q.ask,
            ask_condition: q.ask_condition,
            price_type: q.price_type,
            date: q.date,
        }),
        FpssEvent::Data(FpssData::Trade(t)) => out == (BufferedEvent::Trade {
            contract_id: t.contract_id,
            ms_of_day: t.ms_of_day,
            sequence: t.sequence,
            condition: t.condition,
            size: t.size,
            exchange: t.exchange,
            price_raw: t.price,
            price_type: t.price_type,
            condition_flags: t.condition_flags,
            price_flags: t.price_flags,
            volume_type: t.volume_type,
            records_back: t.records_back,
            date: t.date,
        }),
        FpssEvent::Data(FpssData::OpenInterest(o)) => out == (BufferedEvent::OpenInterest {
            contract_id: o.contract_id,
            ms_of_day: o.ms_of_day,
            open_interest: o.open_interest,
            date: o.date,
        }),
        FpssEvent::Data(FpssData::Ohlcvc(o)) => out == (BufferedEvent::Ohlcvc {
            contract_id: o.contract_id,
            ms_of_day: o.ms_of_day,
            open: o.open,
            high: o.high,
            low: o.low,
            close: o.close,
            price_type: o.price_type,
            volume: o.volume,
            count: o.count,
            date: o.date,
        }),
        FpssEvent::RawData { code, payload } => match out {
            BufferedEvent::RawData { code: c, payload: p } => c == code && p@ == payload@,
            _ => false,
        },
        _ => match out {
            BufferedEvent::Simple { kind, detail, id } => {
                &&& kind@ == spec_simple_parts(e).0
                &&& opt_text(detail) == spec_simple_parts(e).1
                &&& id == spec_simple_parts(e).2
            },
            _ => false,
        },
    }
}

fn simple(kind: &'static str, detail: Option<Vec<u8>>, id: Option<i32>) -> (out: BufferedEvent)
    ensures
        out == (BufferedEvent::Simple { kind: kind, detail: detail, id: id }),
{
    BufferedEvent::Simple { kind: kind, detail: detail, id: id }
}

/// Buffer a control event as a simple event.
fn buffer_control(c: &FpssControl) -> (out: BufferedEvent)
    ensures
        buffered_post(FpssEvent::Control(*c), out),
{
    match c {
        FpssControl::LoginSuccess { permissions } => simple("login_success", Some(permissions.clone()), None),
        FpssControl::ContractAssigned { id, contract } => simple("contract_assigned", Some(contract.clone()), Some(*id)),
        FpssControl::ReqResponse { req_id, result } => simple("req_response", Some(result.clone()), Some(*req_id)),
        FpssControl::MarketOpen => simple("market_open", None, None),
        FpssControl::MarketClose => simple("market_close", None, None),
        FpssControl::ServerError { message } => simple("server_error", Some(message.clone()), None),
        FpssControl::Disconnected { reason } => simple("disconnected", Some(reason.clone()), None),
        FpssControl::Error { message } => simple("error", Some(message.clone()), None),
        FpssControl::Other => simple("unknown_control", None, None),
    }
}

/// Convert one SDK event into the queued form: ticks keep their fields,
/// raw frames keep an owned payload, and everything else becomes a simple
/// event labelled by its kind (`unknown_data`, `unknown_control` and
/// `unknown` for variants the binding does not know).
pub fn fpss_event_to_buffered(event: &FpssEvent) -> (out: BufferedEvent)
    ensures
        buffered_post(*event, out),
{
    match event {
        FpssEvent::Data(data) => match data {
            FpssData::Quote(q) => BufferedEvent::Quote {
                contract_id: q.contract_id,
                ms_of_day: q.ms_of_day,
                bid_size: q.bid_size,
                bid_exchange: q.bid_exchange,
                bid: q.bid,
                bid_condition: q.bid_condition,
                ask_size: q.ask_size,
                ask_exchange: q.ask_exchange,
                ask: q.ask,
                ask_condition: q.ask_condition,
                price_type: q.price_type,
                date: q.date,
            },
            FpssData::Trade(t) => BufferedEvent::Trade {
                contract_id: t.contract_id,
                ms_of_day: t.ms_of_day,
                sequence: t.sequence,
                condition: t.condition,
                size: t.size,
                exchange: t.exchange,
                price_raw: t.price,
                price_type: t.price_type,
                condition_flags: t.condition_flags,
                price_flags: t.price_flags,
                volume_type: t.volume_type,
                records_back: t.records_back,
                date: t.date,
            },
            FpssData::OpenInterest(o) => BufferedEvent::OpenInterest {
                contract_id: o.contract_id,
                ms_of_day: o.ms_of_day,
                open_interest: o.open_interest,
                date: o.date,
            },
            FpssData::Ohlcvc(o) => BufferedEvent::Ohlcvc {
                contract_id: o.contract_id,
                ms_of_day: o.ms_of_day,
                open: o.open,
                high: o.high,
                low: o.low,
                close: o.close,
                price_type: o.price_type,
                volume: o.volume,
                count: o.count,
                date: o.date,
            },
            FpssData::Other => simple("unknown_data", None, None),
        },
        FpssEvent::Control(c) => buffer_control(c),
        FpssEvent::RawData { code, payload } => BufferedEvent::RawData { code: *code, payload: payload.clone() },
        FpssEvent::Other => simple("unknown", None, None),
    }
}

/// Every tick is queued with each field equal to the same-named field of
/// the tick (the trade's integer price as `price_raw`), raw frames keep
/// their code and payload, and every other event is queued as a simple
/// event: control events under their snake_case name with their text and
/// the id of the contract or request they answer, unknown variants as
/// `unknown_data`, `unknown_control` or `unknown`.
pub proof fn lemma_buffered_event_carries_event(e: FpssEvent, out: BufferedEvent)
    requires
        buffered_post(e, out),
    ensures
        e matches FpssEvent::Data(FpssData::Quote(q)) ==> (out matches BufferedEvent::Quote { contract_id, ms_of_day, bid_size, bid_exchange, bid, bid_condition, ask_size, ask_exchange, ask, ask_condition, price_type, date }
            && contract_id == q.contract_id && ms_of_day == q.ms_of_day && bid_size == q.bid_size && bid_exchange == q.bid_exchange && bid == q.bid && bid_condition == q.bid_condition && ask_size == q.ask_size && ask_exchange == q.ask_exchange && ask == q.ask && ask_condition == q.ask_condition && price_type == q.price_type && date == q.date),
        e matches FpssEvent::Data(FpssData::Trade(t)) ==> (out matches BufferedEvent::Trade { contract_id, ms_of_day, sequence, condition, size, exchange, price_raw, price_type, condition_flags, price_flags, volume_type, records_back, date }
            && contract_id == t.contract_id && ms_of_day == t.ms_of_day && sequence == t.sequence && condition == t.condition && size == t.size && exchange == t.exchange && price_raw == t.price && price_type == t.price_type && condition_flags == t.condition_flags && price_flags == t.price_flags && volume_type == t.volume_type && records_back == t.records_back && date == t.date),
        e matches FpssEvent::Data(FpssData::OpenInterest(o)) ==> (out matches BufferedEvent::OpenInterest { contract_id, ms_of_day, open_interest, date }
            && contract_id == o.contract_id && ms_of_day == o.ms_of_day && open_interest == o.open_interest && date == o.date),
        e matches FpssEvent::Data(FpssData::Ohlcvc(o)) ==> (out matches BufferedEvent::Ohlcvc { contract_id, ms_of_day, open, high, low, close, price_type, volume, count, date }
            && contract_id == o.contract_id && ms_of_day == o.ms_of_day && open == o.open && high == o.high && low == o.low && close == o.close && price_type == o.price_type && volume == o.volume && count == o.count && date == o.date),
        e matches FpssEvent::RawData { code, payload } ==> (out matches BufferedEvent::RawData { code: c, payload: p }
            && c == code && p@ == payload@),
        e matches FpssEvent::Control(FpssControl::LoginSuccess { permissions }) ==> (out matches BufferedEvent::Simple { kind, detail, id }
            && kind@ == "login_success"@ && opt_text(detail) == Some(permissions@) && id is None),
        e matches FpssEvent::Control(FpssControl::ContractAssigned { id: cid, contract }) ==> (out matches BufferedEvent::Simple { kind, detail, id }
            && kind@ == "contract_assigned"@ && opt_text(detail) == Some(contract@) && id == Some(cid)),
        e matches FpssEvent::Control(FpssControl::ReqResponse { req_id, result }) ==> (out matches BufferedEvent::Simple { kind, detail, id }
            && kind@ == "req_response"@ && opt_text(detail) == Some(result@) && id == Some(req_id)),
        e matches FpssEvent::Control(FpssControl::MarketOpen) ==> (out matches BufferedEvent::Simple { kind, detail, id }
            && kind@ == "market_open"@ && detail is None && id is None),
        e matches FpssEvent::Control(FpssControl::MarketClose) ==> (out matches BufferedEvent::Simple { kind, detail, id }
            && kind@ == "market_close"@ && detail is None && id is None),
        e matches FpssEvent::Control(FpssControl::ServerError { message }) ==> (out matches BufferedEvent::Simple { kind, detail, id }
            && kind@ == "server_error"@ && opt_text(detail) == Some(message@) && id is None),
        e matches FpssEvent::Control(FpssControl::Disconnected { reason }) ==> (out matches BufferedEvent::Simple { kind, detail, id }
            && kind@ == "disconnected"@ && opt_text(detail) == Some(reason@) && id is None),
        e matches FpssEvent::Control(FpssControl::Error { message }) ==> (out matches BufferedEvent::Simple { kind, detail, id }
            && kind@ == "error"@ && opt_text(detail) == Some(message@) && id is None),
        e matches FpssEvent::Control(FpssControl::Other) ==> (out matches BufferedEvent::Simple { kind, detail, id }
            && kind@ == "unknown_control"@ && detail is None && id is None),
        e == FpssEvent::Data(FpssData::Other) ==> (out matches BufferedEvent::Simple { kind, detail, id }
            && kind@ == "unknown_data"@ && detail is None && id is None),
        e is Other ==> (out matches BufferedEvent::Simple { kind, detail, id }
            && kind@ == "unknown"@ && detail is None && id is None),
{
}

/// The C ABI and the Python SDK classify every event alike: an event is a
/// control record in C exactly when Python queues it as a simple event,
/// raw frames are raw in both, and a control event carries the same
/// detail text (before C-string conversion) and the same id in both (the
/// C record writes `0` where Python has no id).
pub proof fn lemma_bindings_classify_events_alike(e: FpssEvent)
    ensures
        (spec_event_kind(e) == TdxFpssEventKind::Control) == !is_tick_or_raw(e),
        (spec_event_kind(e) == TdxFpssEventKind::RawData) == (e is RawData),
        e is Control ==> spec_control_parts(e).2 == spec_simple_parts(e).1,
        e is Control ==> spec_control_parts(e).1 == (match spec_simple_parts(e).2 {
            Some(id) => id,
            None => 0i32,
        }),
{
}

/// The `kind` value of the Python dict an event becomes.
pub open spec fn spec_buffered_kind(e: BufferedEvent) -> Seq<char> {
    match e {
        BufferedEvent::Quote { .. } => "quote"@,
        BufferedEvent::Trade { .. } => "trade"@,
        BufferedEvent::OpenInterest { .. } => "open_interest"@,
        BufferedEvent::Ohlcvc { .. } => "ohlcvc"@,
        BufferedEvent::RawData { .. } => "raw_data"@,
        BufferedEvent::Simple { kind, .. } => kind@,
    }
}

/// The `kind` key of the dict `next_event()` returns for a queued event.
pub fn buffered_kind(e: &BufferedEvent) -> (k: &'static str)
    ensures
        k@ == spec_buffered_kind(*e),
{
    match e {
        BufferedEvent::Quote { .. } => "quote",
        BufferedEvent::Trade { .. } => "trade",
        BufferedEvent::OpenInterest { .. } => "open_interest",
        BufferedEvent::Ohlcvc { .. } => "ohlcvc",
        BufferedEvent::RawData { .. } => "raw_data",
        BufferedEvent::Simple { kind, .. } => kind,
    }
}

} // verus!
