use thetadatadx_ffi_core::ffi_event::{fpss_event_to_ffi, TdxFpssEventKind, TdxFpssOpenInterest, TdxFpssRawData};
use thetadatadx_ffi_core::fpss_event::{
    FpssControl, FpssData, FpssEvent, OhlcvcTick, OpenInterestTick, QuoteTick, TradeTick,
};
use thetadatadx_ffi_core::py_event::{fpss_event_to_buffered, BufferedEvent};

fn quote() -> QuoteTick {
    QuoteTick {
        contract_id: 7,
        ms_of_day: 34_200_000,
        bid_size: 10,
        bid_exchange: 1,
        bid: 15025,
        bid_condition: 0,
        ask_size: 12,
        ask_exchange: 2,
        ask: 15030,
        ask_condition: 0,
        price_type: 8,
        date: 20240102,
        received_at_ns: 99,
    }
}

fn trade() -> TradeTick {
    TradeTick {
        contract_id: 3,
        ms_of_day: 1,
        sequence: 2,
        ext_condition1: 3,
        ext_condition2: 4,
        ext_condition3: 5,
        ext_condition4: 6,
        condition: 7,
        size: 100,
        exchange: 9,
        price: 55000,
        condition_flags: 1,
        price_flags: 2,
        volume_type: 3,
        records_back: 4,
        price_type: 7,
        date: 20240103,
        received_at_ns: 5,
    }
}

#[test]
fn event_kind_tags_match_the_c_header() {
    assert_eq!(TdxFpssEventKind::Quote.code(), 0);
    assert_eq!(TdxFpssEventKind::Trade.code(), 1);
    assert_eq!(TdxFpssEventKind::OpenInterest.code(), 2);
    assert_eq!(TdxFpssEventKind::Ohlcvc.code(), 3);
    assert_eq!(TdxFpssEventKind::Control.code(), 4);
    assert_eq!(TdxFpssEventKind::RawData.code(), 5);
}

#[test]
fn quote_fills_only_the_quote_member() {
    let out = fpss_event_to_ffi(&FpssEvent::Data(FpssData::Quote(quote())));
    assert_eq!(out.kind, TdxFpssEventKind::Quote);
    assert_eq!(out.quote, quote());
    assert_eq!(out.trade.price, 0);
    assert_eq!(out.open_interest, TdxFpssOpenInterest { contract_id: 0, ms_of_day: 0, open_interest: 0, date: 0, received_at_ns: 0 });
    assert_eq!(out.control.kind, 0);
    assert!(out.control.detail.is_none());
    assert_eq!(out.raw_data.payload_len, 0);
}

#[test]
fn open_interest_and_ohlcvc_copy_their_fields() {
    let oi = OpenInterestTick { contract_id: 4, ms_of_day: 5, open_interest: 1234, date: 20240104, received_at_ns: 6 };
    let out = fpss_event_to_ffi(&FpssEvent::Data(FpssData::OpenInterest(oi)));
    assert_eq!(out.kind, TdxFpssEventKind::OpenInterest);
    assert_eq!(
        out.open_interest,
        TdxFpssOpenInterest { contract_id: 4, ms_of_day: 5, open_interest: 1234, date: 20240104, received_at_ns: 6 }
    );
    let bar = OhlcvcTick {
        contract_id: 1, ms_of_day: 2, open: 3, high: 4, low: 1, close: 2, volume: 5_000_000_000, count: 77,
        price_type: 8, date: 20240105, received_at_ns: 9,
    };
    let out = fpss_event_to_ffi(&FpssEvent::Data(FpssData::Ohlcvc(bar)));
    assert_eq!(out.kind, TdxFpssEventKind::Ohlcvc);
    assert_eq!(out.ohlcvc.volume, 5_000_000_000);
    assert_eq!(out.quote.bid, 0);
}

#[test]
fn raw_frames_carry_an_owned_payload() {
    let out = fpss_event_to_ffi(&FpssEvent::RawData { code: 42, payload: vec![1, 2, 3] });
    assert_eq!(out.kind, TdxFpssEventKind::RawData);
    let TdxFpssRawData { code, payload, payload_len } = out.raw_data;
    assert_eq!((code, payload, payload_len), (42, vec![1, 2, 3], 3));
}

#[test]
fn control_events_map_to_sub_kinds() {
    let cases = vec![
        (FpssControl::LoginSuccess { permissions: b"PRO".to_vec() }, 0, 0, Some(b"PRO".to_vec())),
        (FpssControl::ContractAssigned { id: 17, contract: b"SPY".to_vec() }, 1, 17, Some(b"SPY".to_vec())),
        (FpssControl::ReqResponse { req_id: 5, result: b"Subscribed".to_vec() }, 2, 5, Some(b"Subscribed".to_vec())),
        (FpssControl::MarketOpen, 3, 0, None),
        (FpssControl::MarketClose, 4, 0, None),
        (FpssControl::ServerError { message: b"oops".to_vec() }, 5, 0, Some(b"oops".to_vec())),
        (FpssControl::Disconnected { reason: b"TooManyRequests".to_vec() }, 6, 0, Some(b"TooManyRequests".to_vec())),
        (FpssControl::Error { message: b"bad".to_vec() }, 7, 0, Some(b"bad".to_vec())),
        (FpssControl::Other, 8, 0, None),
    ];
    for (ctrl, kind, id, detail) in cases {
        let out = fpss_event_to_ffi(&FpssEvent::Control(ctrl));
        assert_eq!(out.kind, TdxFpssEventKind::Control);
        assert_eq!(out.control.kind, kind);
        assert_eq!(out.control.id, id);
        assert_eq!(out.control.detail, detail);
    }
}

#[test]
fn control_detail_with_nul_is_dropped() {
    let out = fpss_event_to_ffi(&FpssEvent::Control(FpssControl::ServerError { message: b"a\0b".to_vec() }));
    assert_eq!(out.control.kind, 5);
    assert!(out.control.detail.is_none());
}

#[test]
fn unknown_events_surface_as_unknown_control() {
    for e in [FpssEvent::Other, FpssEvent::Data(FpssData::Other)] {
        let out = fpss_event_to_ffi(&e);
        assert_eq!(out.kind, TdxFpssEventKind::Control);
        assert_eq!(out.control.kind, 8);
        assert!(out.control.detail.is_none());
    }
}

#[test]
fn python_buffers_ticks_with_their_fields() {
    match fpss_event_to_buffered(&FpssEvent::Data(FpssData::Quote(quote()))) {
        BufferedEvent::Quote { contract_id, bid, ask, price_type, date, .. } => {
            assert_eq!((contract_id, bid, ask, price_type, date), (7, 15025, 15030, 8, 20240102));
        }
        _ => panic!("expected a quote"),
    }
    match fpss_event_to_buffered(&FpssEvent::Data(FpssData::Trade(trade()))) {
        BufferedEvent::Trade { price_raw, price_type, size, records_back, .. } => {
            assert_eq!((price_raw, price_type, size, records_back), (55000, 7, 100, 4));
        }
        _ => panic!("expected a trade"),
    }
}

#[test]
fn python_simple_event_labels() {
    let cases = vec![
        (FpssEvent::Control(FpssControl::LoginSuccess { permissions: b"P".to_vec() }), "login_success", Some(b"P".to_vec()), None),
        (FpssEvent::Control(FpssControl::ContractAssigned { id: 3, contract: b"C".to_vec() }), "contract_assigned", Some(b"C".to_vec()), Some(3)),
        (FpssEvent::Control(FpssControl::ReqResponse { req_id: 4, result: b"R".to_vec() }), "req_response", Some(b"R".to_vec()), Some(4)),
        (FpssEvent::Control(FpssControl::MarketOpen), "market_open", None, None),
        (FpssEvent::Control(FpssControl::MarketClose), "market_close", None, None),
        (FpssEvent::Control(FpssControl::ServerError { message: b"S".to_vec() }), "server_error", Some(b"S".to_vec()), None),
        (FpssEvent::Control(FpssControl::Disconnected { reason: b"D".to_vec() }), "disconnected", Some(b"D".to_vec()), None),
        (FpssEvent::Control(FpssControl::Error { message: b"E".to_vec() }), "error", Some(b"E".to_vec()), None),
        (FpssEvent::Control(FpssControl::Other), "unknown_control", None, None),
        (FpssEvent::Data(FpssData::Other), "unknown_data", None, None),
        (FpssEvent::Other, "unknown", None, None),
    ];
    for (event, label, detail_expected, id_expected) in cases {
        match fpss_event_to_buffered(&event) {
            BufferedEvent::Simple { kind, detail, id } => {
                assert_eq!(kind, label);
                assert_eq!(detail, detail_expected);
                assert_eq!(id, id_expected);
            }
            _ => panic!("expected a simple event for {label}"),
        }
    }
    match fpss_event_to_buffered(&FpssEvent::RawData { code: 9, payload: vec![7] }) {
        BufferedEvent::RawData { code, payload } => assert_eq!((code, payload), (9, vec![7])),
        _ => panic!("expected raw data"),
    }
}
