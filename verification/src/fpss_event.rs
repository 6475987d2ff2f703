//! The streaming events the SDK delivers, held as plain values.
//!
//! Prices stay in their wire form (integer plus price type); turning them
//! into floating point is left to the binding layer. Texts that the SDK
//! renders through `Display` or `Debug` (a contract, a request result, a
//! disconnect reason) arrive already rendered, as UTF-8 bytes.

use vstd::prelude::*;

verus! {

/// A quote tick.
#[derive(Clone, Copy, Debug, PartialEq, Eq, Structural)]
pub struct QuoteTick {
    pub contract_id: i32,
    pub ms_of_day: i32,
    pub bid_size: i32,
    pub bid_exchange: i32,
    pub bid: i32,
    pub bid_condition: i32,
    pub ask_size: i32,
    pub ask_exchange: i32,
    pub ask: i32,
    pub ask_condition: i32,
    pub price_type: i32,
    pub date: i32,
    pub received_at_ns: u64,
}

/// A trade tick.
#[derive(Clone, Copy, Debug, PartialEq, Eq, Structural)]
pub struct TradeTick {
    pub contract_id: i32,
    pub ms_of_day: i32,
    pub sequence: i32,
    pub ext_condition1: i32,
    pub ext_condition2: i32,
    pub ext_condition3: i32,
    pub ext_condition4: i32,
    pub condition: i32,
    pub size: i32,
    pub exchange: i32,
    pub price: i32,
    pub condition_flags: i32,
    pub price_flags: i32,
    pub volume_type: i32,
    pub records_back: i32,
    pub price_type: i32,
    pub date: i32,
    pub received_at_ns: u64,
}

/// An open-interest tick.
#[derive(Clone, Copy, Debug, PartialEq, Eq, Structural)]
pub struct OpenInterestTick {
    pub contract_id: i32,
    pub ms_of_day: i32,
    pub open_interest: i32,
    pub date: i32,
    pub received_at_ns: u64,
}

/// An OHLCVC bar.
#[derive(Clone, Copy, Debug, PartialEq, Eq, Structural)]
pub struct OhlcvcTick {
    pub contract_id: i32,
    pub ms_of_day: i32,
    pub open: i32,
    pub high: i32,
    pub low: i32,
    pub close: i32,
    pub volume: i64,
    pub count: i64,
    pub price_type: i32,
    pub date: i32,
    pub received_at_ns: u64,
}

/// A decoded market-data event.
#[derive(Clone, Copy, Debug, PartialEq, Eq, Structural)]
pub enum FpssData {
    Quote(QuoteTick),
    Trade(TradeTick),
    OpenInterest(OpenInterestTick),
    Ohlcvc(OhlcvcTick),
    /// A data variant this binding does not know.
    Other,
}

/// A control event of the streaming protocol.
#[derive(Clone, Debug)]
pub enum FpssControl {
    /// Login accepted; carries the permission string.
    LoginSuccess { permissions: Vec<u8> },
    /// The server assigned an id to a contract; carries the rendered contract.
    ContractAssigned { id: i32, contract: Vec<u8> },
    /// Answer to a subscription request; carries the rendered result.
    ReqResponse { req_id: i32, result: Vec<u8> },
    MarketOpen,
    MarketClose,
    /// The server reported an error.
    ServerError { message: Vec<u8> },
    /// The connection dropped; carries the rendered reason.
    Disconnected { reason: Vec<u8> },
    /// A client-side error.
    Error { message: Vec<u8> },
    /// A control variant this binding does not know.
    Other,
}

/// One event of the stream.
#[derive(Clone, Debug)]
pub enum FpssEvent {
    Data(FpssData),
    Control(FpssControl),
    /// A frame the SDK did not decode.
    RawData { code: u8, payload: Vec<u8> },
    /// An event variant this binding does not know.
    Other,
}

} // verus!
