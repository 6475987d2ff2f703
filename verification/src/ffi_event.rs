//! The flat, tagged event record the `tdx_*` C ABI hands out.
//!
//! Only the member named by `kind` carries data; every other member is
//! zeroed. The floating-point price columns of the C struct are derived
//! from the integer prices by the binding layer and are not part of this
//! record.

use vstd::prelude::*;
use crate::active::has_nul;
use crate::fpss_event::{FpssControl, FpssData, FpssEvent, OhlcvcTick, QuoteTick, TradeTick};
use crate::text::contains_nul;

verus! {

/// Which member of the event record is valid.
#[derive(Clone, Copy, Debug, PartialEq, Eq, Structural)]
pub enum TdxFpssEventKind {
    Quote,
    Trade,
    OpenInterest,
    Ohlcvc,
    Control,
    RawData,
}

/// The C tag value of a kind.
pub open spec fn spec_kind_code(k: TdxFpssEventKind) -> i32 {
    match k {
        TdxFpssEventKind::Quote => 0,
        TdxFpssEventKind::Trade => 1,
        TdxFpssEventKind::OpenInterest => 2,
        TdxFpssEventKind::Ohlcvc => 3,
        TdxFpssEventKind::Control => 4,
        TdxFpssEventKind::RawData => 5,
    }
}

impl TdxFpssEventKind {
    /// The tag value C callers switch on.
    pub fn code(&self) -> (c: i32)
        ensures
            c == spec_kind_code(*self),
    {
        match self {
            TdxFpssEventKind::Quote => 0,
            TdxFpssEventKind::Trade => 1,
            TdxFpssEventKind::OpenInterest => 2,
            TdxFpssEventKind::Ohlcvc => 3,
            TdxFpssEventKind::Control => 4,
            TdxFpssEventKind::RawData => 5,
        }
    }
}

/// The open-interest member of the record.
#[derive(Clone, Copy, Debug, PartialEq, Eq, Structural)]
pub struct TdxFpssOpenInterest {
    pub contract_id: i32,
    pub ms_of_day: i32,
    pub open_interest: i32,
    pub date: i32,
    pub received_at_ns: u64,
}

/// The control member: sub-kind, the contract or request id where one
/// applies, and the detail text when there is one that converts to a C
/// string.
#[derive(Clone, Debug)]
pub struct TdxFpssControl {
    pub kind: i32,
    pub id: i32,
    pub detail: Option<Vec<u8>>,
}

/// The raw-frame member: the wire code and an owned copy of the payload.
#[derive(Clone, Debug)]
pub struct TdxFpssRawData {
    pub code: u8,
    pub payload: Vec<u8>,
    pub payload_len: usize,
}

/// The whole record.
#[derive(Clone, Debug)]
pub struct FfiEvent {
    pub kind: TdxFpssEventKind,
    pub quote: QuoteTick,
    pub trade: TradeTick,
    pub open_interest: TdxFpssOpenInterest,
    pub ohlcvc: OhlcvcTick,
    pub control: TdxFpssControl,
    pub raw_data: TdxFpssRawData,
}

/// Control sub-kinds.
pub const CONTROL_LOGIN_SUCCESS: i32 = 0;
pub const CONTROL_CONTRACT_ASSIGNED: i32 = 1;
pub const CONTROL_REQ_RESPONSE: i32 = 2;
pub const CONTROL_MARKET_OPEN: i32 = 3;
pub const CONTROL_MARKET_CLOSE: i32 = 4;
pub const CONTROL_SERVER_ERROR: i32 = 5;
pub const CONTROL_DISCONNECTED: i32 = 6;
pub const CONTROL_ERROR: i32 = 7;
pub const CONTROL_UNKNOWN: i32 = 8;

pub open spec fn zero_quote() -> QuoteTick {
    QuoteTick {
        contract_id: 0, ms_of_day: 0, bid_size: 0, bid_exchange: 0, bid: 0, bid_condition: 0,
        ask_size: 0, ask_exchange: 0, ask: 0, ask_condition: 0, price_type: 0, date: 0,
        received_at_ns: 0,
    }
}

pub open spec fn zero_trade() -> TradeTick {
    TradeTick {
        contract_id: 0, ms_of_day: 0, sequence: 0, ext_condition1: 0, ext_condition2: 0,
        ext_condition3: 0, ext_condition4: 0, condition: 0, size: 0, exchange: 0, price: 0,
        condition_flags: 0, price_flags: 0, volume_type: 0, records_back: 0, price_type: 0,
        date: 0, received_at_ns: 0,
    }
}

pub open spec fn zero_open_interest() -> TdxFpssOpenInterest {
    TdxFpssOpenInterest { contract_id: 0, ms_of_day: 0, open_interest: 0, date: 0, received_at_ns: 0 }
}

pub open spec fn zero_ohlcvc() -> OhlcvcTick {
    OhlcvcTick {
        contract_id: 0, ms_of_day: 0, open: 0, high: 0, low: 0, close: 0, volume: 0, count: 0,
        price_type: 0, date: 0, received_at_ns: 0,
    }
}

fn new_zero_quote() -> (q: QuoteTick)
    ensures
        q == zero_quote(),
{
    QuoteTick {
        contract_id: 0, ms_of_day: 0, bid_size: 0, bid_exchange: 0, bid: 0, bid_condition: 0,
        ask_size: 0, ask_exchange: 0, ask: 0, ask_condition: 0, price_type: 0, date: 0,
        received_at_ns: 0,
    }
}

fn new_zero_trade() -> (t: TradeTick)
    ensures
        t == zero_trade(),
{
    TradeTick {
        contract_id: 0, ms_of_day: 0, sequence: 0, ext_condition1: 0, ext_condition2: 0,
        ext_condition3: 0, ext_condition4: 0, condition: 0, size: 0, exchange: 0, price: 0,
        condition_flags: 0, price_flags: 0, volume_type: 0, records_back: 0, price_type: 0,
        date: 0, received_at_ns: 0,
    }
}

fn new_zero_open_interest() -> (o: TdxFpssOpenInterest)
    ensures
        o == zero_open_interest(),
{
    TdxFpssOpenInterest { contract_id: 0, ms_of_day: 0, open_interest: 0, date: 0, received_at_ns: 0 }
}

fn new_zero_ohlcvc() -> (o: OhlcvcTick)
    ensures
        o == zero_ohlcvc(),
{
    OhlcvcTick {
        contract_id: 0, ms_of_day: 0, open: 0, high: 0, low: 0, close: 0, volume: 0, count: 0,
        price_type: 0, date: 0, received_at_ns: 0,
    }
}

/// Which member an event fills: unknown data and unknown events surface
/// as control records.
pub open spec fn spec_event_kind(e: FpssEvent) -> TdxFpssEventKind {
    match e {
        FpssEvent::Data(FpssData::Quote(_)) => TdxFpssEventKind::Quote,
        FpssEvent::Data(FpssData::Trade(_)) => TdxFpssEventKind::Trade,
        FpssEvent::Data(FpssData::OpenInterest(_)) => TdxFpssEventKind::OpenInterest,
        FpssEvent::Data(FpssData::Ohlcvc(_)) => TdxFpssEventKind::Ohlcvc,
        FpssEvent::RawData { .. } => TdxFpssEventKind::RawData,
        _ => TdxFpssEventKind::Control,
    }
}

/// Sub-kind, id and detail text (before C-string conversion) of the
/// control member.
pub open spec fn spec_control_parts(e: FpssEvent) -> (i32, i32, Option<Seq<u8>>) {
    match e {
        FpssEvent::Control(c) => match c {
            FpssControl::LoginSuccess { permissions } => (CONTROL_LOGIN_SUCCESS, 0, Some(permissions@)),
            FpssControl::ContractAssigned { id, contract } => (CONTROL_CONTRACT_ASSIGNED, id, Some(contract@)),
            FpssControl::ReqResponse { req_id, result } => (CONTROL_REQ_RESPONSE, req_id, Some(result@)),
            FpssControl::MarketOpen => (CONTROL_MARKET_OPEN, 0, None),
            FpssControl::MarketClose => (CONTROL_MARKET_CLOSE, 0, None),
            FpssControl::ServerError { message } => (CONTROL_SERVER_ERROR, 0, Some(message@)),
            FpssControl::Disconnected { reason } => (CONTROL_DISCONNECTED, 0, Some(reason@)),
            FpssControl::Error { message } => (CONTROL_ERROR, 0, Some(message@)),
            FpssControl::Other => (CONTROL_UNKNOWN, 0, None),
        },
        FpssEvent::Data(FpssData::Other) | FpssEvent::Other => (CONTROL_UNKNOWN, 0, None),
        _ => (0, 0, None),
    }
}

/// A detail text survives only when it converts to a C string, i.e. holds
/// no NUL.
pub open spec fn spec_c_detail(text: Option<Seq<u8>>) -> Option<Seq<u8>> {
    match text {
        Some(t) => if has_nul(t) { None } else { Some(t) },
        None => None,
    }
}

/// The bytes of an optional owned text.
pub open spec fn opt_bytes(o: Option<Vec<u8>>) -> Option<Seq<u8>> {
    match o {
        Some(v) => Some(v@),
        None => None,
    }
}

/// What `fpss_event_to_ffi` produces for `e`, member by member.
pub open spec fn ffi_event_post(e: FpssEvent, out: FfiEvent) -> bool {
    &&& out.kind == spec_event_kind(e)
    &&& out.quote == (match e {
        FpssEvent::Data(FpssData::Quote(q)) => q,
        _ => zero_quote(),
    })
    &&& out.trade == (match e {
        FpssEvent::Data(FpssData::Trade(t)) => t,
        _ => zero_trade(),
    })
    &&& out.open_interest == (match e {
        FpssEvent::Data(FpssData::OpenInterest(o)) => TdxFpssOpenInterest {
            contract_id: o.contract_id,
            ms_of_day: o.ms_of_day,
            open_interest: o.open_interest,
            date: o.date,
            received_at_ns: o.received_at_ns,
        },
        _ => zero_open_interest(),
    })
    &&& out.ohlcvc == (match e {
        FpssEvent::Data(FpssData::Ohlcvc(o)) => o,
        _ => zero_ohlcvc(),
    })
    &&& out.control.kind == spec_control_parts(e).0
    &&& out.control.id == spec_control_parts(e).1
    &&& opt_bytes(out.control.detail) == spec_c_detail(spec_control_parts(e).2)
    &&& out.raw_data.code == (match e {
        FpssEvent::RawData { code, .. } => code,
        _ => 0u8,
    })
    &&& out.raw_data.payload@ == (match e {
        FpssEvent::RawData { payload, .. } => payload@,
        _ => Seq::<u8>::empty(),
    })
    &&& out.raw_data.payload_len == out.raw_data.payload@.len()
}

/// The detail text as it would become a C string: dropped when it holds a
/// NUL.
fn c_detail(text: Vec<u8>) -> (r: Option<Vec<u8>>)
    ensures
        opt_bytes(r) == spec_c_detail(Some(text@)),
{
    if contains_nul(text.as_slice()) {
        None
    } else {
        Some(text)
    }
}

fn control_record(kind: i32, id: i32, detail: Option<Vec<u8>>) -> (c: TdxFpssControl)
    ensures
        c.kind == kind,
        c.id == id,
        opt_bytes(c.detail) == spec_c_detail(opt_bytes(detail)),
{
    match detail {
        Some(t) => TdxFpssControl { kind: kind, id: id, detail: c_detail(t) },
        None => TdxFpssControl { kind: kind, id: id, detail: None },
    }
}

fn empty_raw() -> (r: TdxFpssRawData)
    ensures
        r.code == 0u8,
        r.payload@ == Seq::<u8>::empty(),
        r.payload_len == 0,
{
    TdxFpssRawData { code: 0, payload: Vec::new(), payload_len: 0 }
}

/// A record whose members are all zero, tagged `kind`.
fn blank_event(kind: TdxFpssEventKind) -> (out: FfiEvent)
    ensures
        out.kind == kind,
        out.quote == zero_quote(),
        out.trade == zero_trade(),
        out.open_interest == zero_open_interest(),
        out.ohlcvc == zero_ohlcvc(),
        out.control.kind == 0,
        out.control.id == 0,
        out.control.detail is None,
        out.raw_data.code == 0u8,
        out.raw_data.payload@ == Seq::<u8>::empty(),
        out.raw_data.payload_len == 0,
{
    FfiEvent {
        kind: kind,
        quote: new_zero_quote(),
        trade: new_zero_trade(),
        open_interest: new_zero_open_interest(),
        ohlcvc: new_zero_ohlcvc(),
        control: TdxFpssControl { kind: 0, id: 0, detail: None },
        raw_data: empty_raw(),
    }
}

/// Turn a control event into the (sub-kind, id, detail) triple.
fn control_parts(c: &FpssControl) -> (r: (i32, i32, Option<Vec<u8>>))
    ensures
        r.0 == spec_control_parts(FpssEvent::Control(*c)).0,
        r.1 == spec_control_parts(FpssEvent::Control(*c)).1,
        opt_bytes(r.2) == spec_control_parts(FpssEvent::Control(*c)).2,
{
    match c {
        FpssControl::LoginSuccess { permissions } => (CONTROL_LOGIN_SUCCESS, 0, Some(permissions.clone())),
        FpssControl::ContractAssigned { id, contract } => (CONTROL_CONTRACT_ASSIGNED, *id, Some(contract.clone())),
        FpssControl::ReqResponse { req_id, result } => (CONTROL_REQ_RESPONSE, *req_id, Some(result.clone())),
        FpssControl::MarketOpen => (CONTROL_MARKET_OPEN, 0, None),
        FpssControl::MarketClose => (CONTROL_MARKET_CLOSE, 0, None),
        FpssControl::ServerError { message } => (CONTROL_SERVER_ERROR, 0, Some(message.clone())),
        FpssControl::Disconnected { reason } => (CONTROL_DISCONNECTED, 0, Some(reason.clone())),
        FpssControl::Error { message } => (CONTROL_ERROR, 0, Some(message.clone())),
        FpssControl::Other => (CONTROL_UNKNOWN, 0, None),
    }
}

/// Convert one SDK event into the tagged C record: the matching member
/// carries the event's fields, every other member is zero. Control events
/// carry their sub-kind, id and detail text (dropped when it holds a NUL);
/// unknown data and unknown events become control records of the unknown
/// sub-kind; raw frames carry an owned copy of their payload.
pub fn fpss_event_to_ffi(event: &FpssEvent) -> (out: FfiEvent)
    ensures
        ffi_event_post(*event, out),
{
    match event {
        FpssEvent::Data(FpssData::Quote(q)) => {
            let mut out = blank_event(TdxFpssEventKind::Quote);
            out.quote = *q;
            out
        },
        FpssEvent::Data(FpssData::Trade(t)) => {
            let mut out = blank_event(TdxFpssEventKind::Trade);
            out.trade = *t;
            out
        },
        FpssEvent::Data(FpssData::OpenInterest(o)) => {
            let mut out = blank_event(TdxFpssEventKind::OpenInterest);
            out.open_interest = TdxFpssOpenInterest {
                contract_id: o.contract_id,
                ms_of_day: o.ms_of_day,
                open_interest: o.open_interest,
                date: o.date,
                received_at_ns: o.received_at_ns,
            };
            out
        },
        FpssEvent::Data(FpssData::Ohlcvc(o)) => {
            let mut out = blank_event(TdxFpssEventKind::Ohlcvc);
            out.ohlcvc = *o;
            out
        },
        FpssEvent::RawData { code, payload } => {
            let mut out = blank_event(TdxFpssEventKind::RawData);
            let owned = payload.clone();
            proof {
                assert(owned@ == payload@);
            }
            let len = owned.len();
            out.raw_data = TdxFpssRawData { code: *code, payload: owned, payload_len: len };
            out
        },
        FpssEvent::Control(c) => {
            let (kind, id, detail) = control_parts(c);
            let mut out = blank_event(TdxFpssEventKind::Control);
            out.control = control_record(kind, id, detail);
            out
        },
        FpssEvent::Data(FpssData::Other) | FpssEvent::Other => {
            let mut out = blank_event(TdxFpssEventKind::Control);
            out.control = TdxFpssControl { kind: CONTROL_UNKNOWN, id: 0, detail: None };
            out
        },
    }
}

/// Every tick reaches the C record unchanged, field by field, in the member
/// its tag names (tags: quote `0`, trade `1`, open interest `2`, OHLCVC `3`,
/// control `4`, raw frame `5`); raw frames keep their code and payload;
/// control events carry their sub-kind (login `0`, contract assigned `1`,
/// request response `2`, market open `3`, market close `4`, server error
/// `5`, disconnected `6`, error `7`, unknown `8`) and the id of the
/// contract or request they answer; unknown data and unknown events are
/// control records of the unknown sub-kind.
pub proof fn lemma_ffi_record_carries_event(e: FpssEvent, out: FfiEvent)
    requires
        ffi_event_post(e, out),
    ensures
        e matches FpssEvent::Data(FpssData::Quote(q)) ==> {
            &&& spec_kind_code(out.kind) == 0
            &&& out.quote.contract_id == q.contract_id
            &&& out.quote.ms_of_day == q.ms_of_day
            &&& out.quote.bid_size == q.bid_size
            &&& out.quote.bid_exchange == q.bid_exchange
            &&& out.quote.bid == q.bid
            &&& out.quote.bid_condition == q.bid_condition
            &&& out.quote.ask_size == q.ask_size
            &&& out.quote.ask_exchange == q.ask_exchange
            &&& out.quote.ask == q.ask
            &&& out.quote.ask_condition == q.ask_condition
            &&& out.quote.price_type == q.price_type
            &&& out.quote.date == q.date
            &&& out.quote.received_at_ns == q.received_at_ns
        },
        e matches FpssEvent::Data(FpssData::Trade(t)) ==> {
            &&& spec_kind_code(out.kind) == 1
            &&& out.trade.contract_id == t.contract_id
            &&& out.trade.ms_of_day == t.ms_of_day
            &&& out.trade.sequence == t.sequence
            &&& out.trade.ext_condition1 == t.ext_condition1
            &&& out.trade.ext_condition2 == t.ext_condition2
            &&& out.trade.ext_condition3 == t.ext_condition3
            &&& out.trade.ext_condition4 == t.ext_condition4
            &&& out.trade.condition == t.condition
            &&& out.trade.size == t.size
            &&& out.trade.exchange == t.exchange
            &&& out.trade.price == t.price
            &&& out.trade.condition_flags == t.condition_flags
            &&& out.trade.price_flags == t.price_flags
            &&& out.trade.volume_type == t.volume_type
            &&& out.trade.records_back == t.records_back
            &&& out.trade.price_type == t.price_type
            &&& out.trade.date == t.date
            &&& out.trade.received_at_ns == t.received_at_ns
        },
        e matches FpssEvent::Data(FpssData::OpenInterest(o)) ==> {
            &&& spec_kind_code(out.kind) == 2
            &&& out.open_interest.contract_id == o.contract_id
            &&& out.open_interest.ms_of_day == o.ms_of_day
            &&& out.open_interest.open_interest == o.open_interest
            &&& out.open_interest.date == o.date
            &&& out.open_interest.received_at_ns == o.received_at_ns
        },
        e matches FpssEvent::Data(FpssData::Ohlcvc(o)) ==> {
            &&& spec_kind_code(out.kind) == 3
            &&& out.ohlcvc.contract_id == o.contract_id
            &&& out.ohlcvc.ms_of_day == o.ms_of_day
            &&& out.ohlcvc.open == o.open
            &&& out.ohlcvc.high == o.high
            &&& out.ohlcvc.low == o.low
            &&& out.ohlcvc.close == o.close
            &&& out.ohlcvc.volume == o.volume
            &&& out.ohlcvc.count == o.count
            &&& out.ohlcvc.price_type == o.price_type
            &&& out.ohlcvc.date == o.date
            &&& out.ohlcvc.received_at_ns == o.received_at_ns
        },
        e matches FpssEvent::RawData { code, payload } ==> {
            &&& spec_kind_code(out.kind) == 5
            &&& out.raw_data.code == code
            &&& out.raw_data.payload@ == payload@
            &&& out.raw_data.payload_len == payload@.len()
        },
        e is Control || e is Other || e == FpssEvent::Data(FpssData::Other) ==> spec_kind_code(out.kind) == 4,
        e matches FpssEvent::Control(FpssControl::LoginSuccess { .. }) ==> out.control.kind == 0 && out.control.id == 0,
        e matches FpssEvent::Control(FpssControl::ContractAssigned { id, .. }) ==> out.control.kind == 1 && out.control.id == id,
        e matches FpssEvent::Control(FpssControl::ReqResponse { req_id, .. }) ==> out.control.kind == 2 && out.control.id == req_id,
        e matches FpssEvent::Control(FpssControl::MarketOpen) ==> out.control.kind == 3,
        e matches FpssEvent::Control(FpssControl::MarketClose) ==> out.control.kind == 4,
        e matches FpssEvent::Control(FpssControl::ServerError { .. }) ==> out.control.kind == 5,
        e matches FpssEvent::Control(FpssControl::Disconnected { .. }) ==> out.control.kind == 6,
        e matches FpssEvent::Control(FpssControl::Error { .. }) ==> out.control.kind == 7,
        (e matches FpssEvent::Control(FpssControl::Other) || e is Other || e == FpssEvent::Data(FpssData::Other))
            ==> out.control.kind == 8 && out.control.detail is None,
{
}

/// The C tags of distinct kinds are distinct, so `kind` alone tells a C
/// caller which member to read.
pub proof fn lemma_kind_codes_distinct(a: TdxFpssEventKind, b: TdxFpssEventKind)
    ensures
        spec_kind_code(a) == spec_kind_code(b) ==> a == b,
        0 <= spec_kind_code(a) <= 5,
{
}

} // verus!
