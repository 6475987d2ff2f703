//! Validation of the polymorphic subscribe / unsubscribe request that
//! crosses the C ABI, and the labels active subscriptions are reported
//! under.
//!
//! One request shape carries every per-contract or full-stream
//! subscription. [`coerce_subscription`] turns it into a [`Subscription`]
//! or reports exactly why it was refused through the error slot.

use vstd::prelude::*;
use vstd::utf8::encode_utf8;
use vstd::string::StringSliceAdditionalSpecFns;
use crate::codes::{THETADATADX_ERR_INVALID_PARAMETER, THETADATADX_ERR_OTHER};
use crate::cstr::{invalid_utf8_message, null_arg_message, require_cstr, CStrArg};
use crate::error_slot::{after_set_error_with_code, set_error, set_error_with_code, LastError, LastErrorView};
use crate::std_text::{debug_format, debug_quoted, to_uppercase, unicode_uppercase};
use crate::text::{
    const_bytes_eq, concat, eq_ignore_ascii_case, format_i64, push_bytes, spec_eq_ignore_ascii_case,
    spec_signed_decimal, utf8,
};

verus! {

/// Per-contract subscription scope: one named contract.
pub const THETADATADX_SUB_SCOPE_CONTRACT: i32 = 0;
/// Full-stream subscription scope: every contract of a security type.
pub const THETADATADX_SUB_SCOPE_FULL: i32 = 1;
/// Quote tick stream (per-contract scope only).
pub const THETADATADX_SUB_KIND_QUOTE: i32 = 0;
/// Trade tick stream.
pub const THETADATADX_SUB_KIND_TRADE: i32 = 1;
/// Open-interest stream.
pub const THETADATADX_SUB_KIND_OPEN_INTEREST: i32 = 2;
/// Market-value stream (per-contract scope only).
pub const THETADATADX_SUB_KIND_MARKET_VALUE: i32 = 3;

/// Per-contract tick stream.
#[derive(Clone, Copy, Debug, PartialEq, Eq, Structural)]
pub enum SubscriptionKind {
    Quote,
    Trade,
    OpenInterest,
    MarketValue,
}

/// Full-stream tick stream.
#[derive(Clone, Copy, Debug, PartialEq, Eq, Structural)]
pub enum FullSubscriptionKind {
    Trades,
    OpenInterest,
}

/// Security type.
#[derive(Clone, Copy, Debug, PartialEq, Eq, Structural)]
pub enum SecType {
    Stock,
    Option,
    Index,
    Rate,
}

/// The contract a per-contract subscription names. Option legs are carried
/// as the caller's text; the SDK's contract builder parses them.
pub enum ContractSpec {
    Stock(String),
    Index(String),
    Option { symbol: String, expiration: String, strike: String, right: String },
}

/// A validated subscription.
#[allow(inconsistent_fields)]
pub enum Subscription {
    Contract { contract: ContractSpec, kind: SubscriptionKind },
    Full { sec_type: SecType, kind: FullSubscriptionKind },
}

/// Abstract form of [`ContractSpec`].
pub enum ContractSpecView {
    Stock(Seq<char>),
    Index(Seq<char>),
    Option { symbol: Seq<char>, expiration: Seq<char>, strike: Seq<char>, right: Seq<char> },
}

/// Abstract form of [`Subscription`].
#[allow(inconsistent_fields)]
pub enum SubscriptionView {
    Contract { contract: ContractSpecView, kind: SubscriptionKind },
    Full { sec_type: SecType, kind: FullSubscriptionKind },
}

impl View for ContractSpec {
    type V = ContractSpecView;

    open spec fn view(&self) -> ContractSpecView {
        match self {
            ContractSpec::Stock(s) => ContractSpecView::Stock(s@),
            ContractSpec::Index(s) => ContractSpecView::Index(s@),
            ContractSpec::Option { symbol, expiration, strike, right } => ContractSpecView::Option {
                symbol: symbol@,
                expiration: expiration@,
                strike: strike@,
                right: right@,
            },
        }
    }
}

impl View for Subscription {
    type V = SubscriptionView;

    open spec fn view(&self) -> SubscriptionView {
        match self {
            Subscription::Contract { contract, kind } => SubscriptionView::Contract {
                contract: contract@,
                kind: *kind,
            },
            Subscription::Full { sec_type, kind } => SubscriptionView::Full {
                sec_type: *sec_type,
                kind: *kind,
            },
        }
    }
}

/// The request payload, with each C string argument already read.
pub struct SubscriptionRequest {
    /// `THETADATADX_SUB_SCOPE_CONTRACT` or `THETADATADX_SUB_SCOPE_FULL`.
    pub scope: i32,
    /// One of the `THETADATADX_SUB_KIND_*` values.
    pub kind: i32,
    /// Stock or underlying symbol (per-contract scope).
    pub symbol: CStrArg,
    /// Option expiration (`YYYYMMDD`), null unless an option.
    pub expiration: CStrArg,
    /// Option strike, null unless an option.
    pub strike: CStrArg,
    /// Option right (`C` / `P`), null unless an option.
    pub right: CStrArg,
    /// `STOCK` / `OPTION` / `INDEX`: the universe of a full-stream
    /// subscription, or stock vs index for a per-contract underlier.
    pub sec_type: CStrArg,
}

/// The per-contract kind a request code selects.
pub open spec fn spec_contract_kind(code: i32) -> Option<SubscriptionKind> {
    if code == THETADATADX_SUB_KIND_QUOTE {
        Some(SubscriptionKind::Quote)
    } else if code == THETADATADX_SUB_KIND_TRADE {
        Some(SubscriptionKind::Trade)
    } else if code == THETADATADX_SUB_KIND_OPEN_INTEREST {
        Some(SubscriptionKind::OpenInterest)
    } else if code == THETADATADX_SUB_KIND_MARKET_VALUE {
        Some(SubscriptionKind::MarketValue)
    } else {
        None
    }
}

/// Decode a per-contract kind code.
pub fn contract_kind_from_code(code: i32) -> (r: Option<SubscriptionKind>)
    ensures
        r == spec_contract_kind(code),
{
    if code == THETADATADX_SUB_KIND_QUOTE {
        Some(SubscriptionKind::Quote)
    } else if code == THETADATADX_SUB_KIND_TRADE {
        Some(SubscriptionKind::Trade)
    } else if code == THETADATADX_SUB_KIND_OPEN_INTEREST {
        Some(SubscriptionKind::OpenInterest)
    } else if code == THETADATADX_SUB_KIND_MARKET_VALUE {
        Some(SubscriptionKind::MarketValue)
    } else {
        None
    }
}

/// The kind codes of a request: per contract, `0` is quote, `1` trade, `2`
/// open interest and `3` market value, every other code is refused; a
/// validated per-contract subscription carries exactly the kind its code
/// names, and a full-stream one carries trades for `1` and open interest
/// for `2` (the only full-stream codes accepted). A plain stock request
/// with a known kind always validates to that stock.
pub proof fn lemma_kind_codes(r: SubscriptionRequest)
    ensures
        spec_contract_kind(0) == Some(SubscriptionKind::Quote),
        spec_contract_kind(1) == Some(SubscriptionKind::Trade),
        spec_contract_kind(2) == Some(SubscriptionKind::OpenInterest),
        spec_contract_kind(3) == Some(SubscriptionKind::MarketValue),
        (r.kind < 0 || r.kind > 3) ==> spec_contract_kind(r.kind) is None,
        spec_coerce(Some(r)) matches Ok(SubscriptionView::Contract { kind, .. }) ==> {
            &&& r.scope == 0
            &&& r.kind == 0 ==> kind == SubscriptionKind::Quote
            &&& r.kind == 1 ==> kind == SubscriptionKind::Trade
            &&& r.kind == 2 ==> kind == SubscriptionKind::OpenInterest
            &&& r.kind == 3 ==> kind == SubscriptionKind::MarketValue
        },
        spec_coerce(Some(r)) matches Ok(SubscriptionView::Full { kind, .. }) ==> {
            &&& r.scope == 1
            &&& r.kind == 1 || r.kind == 2
            &&& r.kind == 1 ==> kind == FullSubscriptionKind::Trades
            &&& r.kind == 2 ==> kind == FullSubscriptionKind::OpenInterest
        },
        (r.scope == 0 && 0 <= r.kind <= 3 && r.symbol is Text && r.expiration is Null && r.strike is Null
            && r.right is Null && r.sec_type is Null) ==> (spec_coerce(Some(r)) matches Ok(
            SubscriptionView::Contract { contract: ContractSpecView::Stock(sym), kind }
        ) && sym == arg_text(r.symbol) && (r.kind == 1 ==> kind == SubscriptionKind::Trade)
            && (r.kind == 2 ==> kind == SubscriptionKind::OpenInterest)),
        (r.scope == 0 && 0 <= r.kind <= 3 && r.symbol is Text && r.expiration is Text && r.strike is Text
            && r.right is Text) ==> (spec_coerce(Some(r)) matches Ok(SubscriptionView::Contract {
            contract: ContractSpecView::Option { symbol, expiration, strike, right },
            ..
        }) && symbol == arg_text(r.symbol) && expiration == arg_text(r.expiration)
            && strike == arg_text(r.strike) && right == arg_text(r.right)),
        (r.scope == 1 && r.kind == 1 && r.sec_type is Text && unicode_uppercase(arg_text(r.sec_type)) == "OPTION"@)
            ==> spec_coerce(Some(r)) == Ok::<SubscriptionView, Refusal>(
            SubscriptionView::Full { sec_type: SecType::Option, kind: FullSubscriptionKind::Trades },
        ),
        (r.scope == 1 && r.kind == 2 && r.sec_type is Text && unicode_uppercase(arg_text(r.sec_type)) == "STOCK"@)
            ==> spec_coerce(Some(r)) == Ok::<SubscriptionView, Refusal>(
            SubscriptionView::Full { sec_type: SecType::Stock, kind: FullSubscriptionKind::OpenInterest },
        ),
{
    reveal_strlit("STOCK");
    reveal_strlit("OPTION");
    assert("OPTION"@.len() != "STOCK"@.len());
}

/// Why a request was refused: the message and the code it is reported
/// under.
pub type Refusal = (Seq<u8>, i32);

/// The refusal a C string argument produces, if it is not text.
pub open spec fn arg_refusal(name: Seq<u8>, a: CStrArg) -> Option<Refusal> {
    match a {
        CStrArg::Null => Some((null_arg_message(name), THETADATADX_ERR_OTHER)),
        CStrArg::InvalidUtf8(d) => Some((invalid_utf8_message(name, d@), THETADATADX_ERR_OTHER)),
        CStrArg::Text(_) => None,
    }
}

/// The text of an argument that decoded to text.
pub open spec fn arg_text(a: CStrArg) -> Seq<char> {
    match a {
        CStrArg::Text(t) => t@,
        _ => Seq::empty(),
    }
}

/// Message for an unknown kind or scope code.
pub open spec fn invalid_code_message(what: Seq<u8>, code: i32) -> Seq<u8> {
    what + spec_signed_decimal(code as int)
}

/// Message for a per-contract underlier whose security type is neither stock
/// nor index.
pub open spec fn contract_sec_type_message(text: Seq<char>) -> Seq<u8> {
    utf8("invalid sec_type '") + encode_utf8(text)
        + utf8("' for a contract subscription; expected STOCK or INDEX")
}

/// The outcome for a per-contract request (scope already checked).
pub open spec fn spec_coerce_contract(r: SubscriptionRequest) -> Result<SubscriptionView, Refusal> {
    match spec_contract_kind(r.kind) {
        None => Err((invalid_code_message(utf8("invalid kind "), r.kind), THETADATADX_ERR_INVALID_PARAMETER)),
        Some(kind) => match arg_refusal(utf8("symbol_ptr"), r.symbol) {
            Some(e) => Err(e),
            None => {
                let symbol = arg_text(r.symbol);
                if r.expiration is Null && r.strike is Null && r.right is Null {
                    if r.sec_type is Null {
                        Ok(SubscriptionView::Contract { contract: ContractSpecView::Stock(symbol), kind })
                    } else {
                        match arg_refusal(utf8("sec_type_ptr"), r.sec_type) {
                            Some(e) => Err(e),
                            None => {
                                let st = arg_text(r.sec_type);
                                if spec_eq_ignore_ascii_case(encode_utf8(st), utf8("index")) {
                                    Ok(SubscriptionView::Contract { contract: ContractSpecView::Index(symbol), kind })
                                } else if st.len() == 0 || spec_eq_ignore_ascii_case(encode_utf8(st), utf8("stock")) {
                                    Ok(SubscriptionView::Contract { contract: ContractSpecView::Stock(symbol), kind })
                                } else {
                                    Err((contract_sec_type_message(st), THETADATADX_ERR_INVALID_PARAMETER))
                                }
                            },
                        }
                    }
                } else {
                    match arg_refusal(utf8("expiration_ptr"), r.expiration) {
                        Some(e) => Err(e),
                        None => match arg_refusal(utf8("strike_ptr"), r.strike) {
                            Some(e) => Err(e),
                            None => match arg_refusal(utf8("right_ptr"), r.right) {
                                Some(e) => Err(e),
                                None => Ok(SubscriptionView::Contract {
                                    contract: ContractSpecView::Option {
                                        symbol,
                                        expiration: arg_text(r.expiration),
                                        strike: arg_text(r.strike),
                                        right: arg_text(r.right),
                                    },
                                    kind,
                                }),
                            },
                        },
                    }
                }
            },
        },
    }
}

/// The security type an upper-cased full-stream selector names.
pub open spec fn spec_full_sec_type(upper: Seq<char>) -> Option<SecType> {
    if upper == "STOCK"@ {
        Some(SecType::Stock)
    } else if upper == "OPTION"@ {
        Some(SecType::Option)
    } else if upper == "INDEX"@ {
        Some(SecType::Index)
    } else {
        None
    }
}

/// Message for a full-stream selector that names no security type.
pub open spec fn full_sec_type_message(upper: Seq<char>) -> Seq<u8> {
    utf8("invalid sec_type ") + encode_utf8(debug_quoted(upper))
        + utf8(" (expected STOCK, OPTION, INDEX)")
}

/// The outcome for a full-stream request (scope already checked).
pub open spec fn spec_coerce_full(r: SubscriptionRequest) -> Result<SubscriptionView, Refusal> {
    if r.kind == THETADATADX_SUB_KIND_TRADE || r.kind == THETADATADX_SUB_KIND_OPEN_INTEREST {
        let kind = if r.kind == THETADATADX_SUB_KIND_TRADE {
            FullSubscriptionKind::Trades
        } else {
            FullSubscriptionKind::OpenInterest
        };
        match arg_refusal(utf8("sec_type_ptr"), r.sec_type) {
            Some(e) => Err(e),
            None => {
                let upper = unicode_uppercase(arg_text(r.sec_type));
                match spec_full_sec_type(upper) {
                    Some(sec_type) => Ok(SubscriptionView::Full { sec_type, kind }),
                    None => Err((full_sec_type_message(upper), THETADATADX_ERR_INVALID_PARAMETER)),
                }
            },
        }
    } else if r.kind == THETADATADX_SUB_KIND_QUOTE {
        Err((utf8("full-stream Quote is not a valid subscription"), THETADATADX_ERR_INVALID_PARAMETER))
    } else if r.kind == THETADATADX_SUB_KIND_MARKET_VALUE {
        Err((utf8("full-stream MarketValue is not a valid subscription"), THETADATADX_ERR_INVALID_PARAMETER))
    } else {
        Err((invalid_code_message(utf8("invalid kind "), r.kind), THETADATADX_ERR_INVALID_PARAMETER))
    }
}

/// The outcome for a request: the subscription it names, or the refusal.
pub open spec fn spec_coerce(req: Option<SubscriptionRequest>) -> Result<SubscriptionView, Refusal> {
    match req {
        None => Err((utf8("subscription request is null"), THETADATADX_ERR_OTHER)),
        Some(r) => if r.scope == THETADATADX_SUB_SCOPE_CONTRACT {
            spec_coerce_contract(r)
        } else if r.scope == THETADATADX_SUB_SCOPE_FULL {
            spec_coerce_full(r)
        } else {
            Err((invalid_code_message(utf8("invalid scope "), r.scope), THETADATADX_ERR_INVALID_PARAMETER))
        },
    }
}

/// How the call ends for a given outcome: success leaves the slot as it
/// was, a refusal records its message and code.
pub open spec fn coerce_post(
    outcome: Result<SubscriptionView, Refusal>,
    r: Option<Subscription>,
    before: LastErrorView,
    after: LastErrorView,
) -> bool {
    match outcome {
        Ok(v) => r matches Some(s) && s@ == v && after == before,
        Err(e) => r is None && after == after_set_error_with_code(e.0, e.1),
    }
}

/// Set an invalid-kind or invalid-scope refusal.
fn refuse_code(slot: &mut LastError, what: &str, code: i32)
    ensures
        final(slot)@ == after_set_error_with_code(
            invalid_code_message(utf8(what), code),
            THETADATADX_ERR_INVALID_PARAMETER,
        ),
{
    let msg = concat(what.as_bytes(), format_i64(code as i64).as_slice());
    set_error_with_code(slot, msg.as_slice(), THETADATADX_ERR_INVALID_PARAMETER);
}

/// Validate a per-contract request.
fn coerce_contract(slot: &mut LastError, r: SubscriptionRequest) -> (out: Option<Subscription>)
    requires
        r.scope == THETADATADX_SUB_SCOPE_CONTRACT,
    ensures
        coerce_post(spec_coerce_contract(r), out, old(slot)@, final(slot)@),
{
    let kind = match contract_kind_from_code(r.kind) {
        Some(k) => k,
        None => {
            refuse_code(slot, "invalid kind ", r.kind);
            return None;
        },
    };
    let SubscriptionRequest { scope: _, kind: _, symbol, expiration, strike, right, sec_type } = r;
    let legs_absent = matches!(expiration, CStrArg::Null) && matches!(strike, CStrArg::Null)
        && matches!(right, CStrArg::Null);
    let symbol = match require_cstr(slot, "symbol_ptr".as_bytes(), symbol) {
        Some(s) => s,
        None => return None,
    };
    if legs_absent {
        if matches!(sec_type, CStrArg::Null) {
            return Some(Subscription::Contract { contract: ContractSpec::Stock(symbol), kind });
        }
        let st = match require_cstr(slot, "sec_type_ptr".as_bytes(), sec_type) {
            Some(s) => s,
            None => return None,
        };
        let st_bytes = st.as_str().as_bytes();
        if eq_ignore_ascii_case(st_bytes, "index".as_bytes()) {
            Some(Subscription::Contract { contract: ContractSpec::Index(symbol), kind })
        } else if st_bytes.len() == 0 || eq_ignore_ascii_case(st_bytes, "stock".as_bytes()) {
            proof {
                if st_bytes@.len() == 0 {
                    lemma_empty_text_iff_empty_bytes(st@);
                }
            }
            Some(Subscription::Contract { contract: ContractSpec::Stock(symbol), kind })
        } else {
            proof {
                lemma_empty_text_iff_empty_bytes(st@);
            }
            let mut msg = concat("invalid sec_type '".as_bytes(), st_bytes);
            push_bytes(&mut msg, "' for a contract subscription; expected STOCK or INDEX".as_bytes());
            set_error_with_code(slot, msg.as_slice(), THETADATADX_ERR_INVALID_PARAMETER);
            None
        }
    } else {
        let expiration = match require_cstr(slot, "expiration_ptr".as_bytes(), expiration) {
            Some(s) => s,
            None => return None,
        };
        let strike = match require_cstr(slot, "strike_ptr".as_bytes(), strike) {
            Some(s) => s,
            None => return None,
        };
        let right = match require_cstr(slot, "right_ptr".as_bytes(), right) {
            Some(s) => s,
            None => return None,
        };
        Some(Subscription::Contract {
            contract: ContractSpec::Option { symbol, expiration, strike, right },
            kind,
        })
    }
}

/// Resolve an upper-cased full-stream selector to a security type, or
/// record why it names none.
pub fn resolve_full_sec_type(slot: &mut LastError, upper: &str) -> (r: Option<SecType>)
    ensures
        r == spec_full_sec_type(upper@),
        r is Some ==> final(slot)@ == old(slot)@,
        r is None ==> final(slot)@ == after_set_error_with_code(
            full_sec_type_message(upper@),
            THETADATADX_ERR_INVALID_PARAMETER,
        ),
{
    let b = upper.as_bytes();
    if const_bytes_eq(b, "STOCK".as_bytes()) {
        proof { lemma_same_bytes_same_text(upper, "STOCK"); }
        Some(SecType::Stock)
    } else if const_bytes_eq(b, "OPTION".as_bytes()) {
        proof { lemma_same_bytes_same_text(upper, "OPTION"); }
        Some(SecType::Option)
    } else if const_bytes_eq(b, "INDEX".as_bytes()) {
        proof { lemma_same_bytes_same_text(upper, "INDEX"); }
        Some(SecType::Index)
    } else {
        proof {
            lemma_same_text_same_bytes(upper, "STOCK");
            lemma_same_text_same_bytes(upper, "OPTION");
            lemma_same_text_same_bytes(upper, "INDEX");
        }
        let quoted = debug_format(upper);
        let mut msg = concat("invalid sec_type ".as_bytes(), quoted.as_str().as_bytes());
        push_bytes(&mut msg, " (expected STOCK, OPTION, INDEX)".as_bytes());
        set_error_with_code(slot, msg.as_slice(), THETADATADX_ERR_INVALID_PARAMETER);
        None
    }
}

/// Two strings with the same UTF-8 bytes are the same text.
pub(crate) proof fn lemma_same_bytes_same_text(a: &str, b: &str)
    requires
        a.spec_bytes() == b.spec_bytes(),
    ensures
        a@ == b@,
{
    vstd::utf8::encode_utf8_decode_utf8(a@);
    vstd::utf8::encode_utf8_decode_utf8(b@);
}

/// Text is empty exactly when its UTF-8 encoding is.
proof fn lemma_empty_text_iff_empty_bytes(s: Seq<char>)
    ensures
        (encode_utf8(s).len() == 0) == (s.len() == 0),
{
    vstd::utf8::encode_utf8_decode_utf8(s);
    if encode_utf8(s).len() == 0 {
        assert(encode_utf8(s) =~= Seq::<u8>::empty());
        assert(vstd::utf8::valid_utf8(Seq::<u8>::empty()));
        assert(vstd::utf8::decode_utf8(Seq::<u8>::empty()) =~= Seq::<char>::empty());
    }
}

/// The same text has the same UTF-8 bytes.
pub(crate) proof fn lemma_same_text_same_bytes(a: &str, b: &str)
    ensures
        a@ == b@ ==> a.spec_bytes() == b.spec_bytes(),
{
}

/// Validate a full-stream request.
fn coerce_full(slot: &mut LastError, r: SubscriptionRequest) -> (out: Option<Subscription>)
    requires
        r.scope == THETADATADX_SUB_SCOPE_FULL,
    ensures
        coerce_post(spec_coerce_full(r), out, old(slot)@, final(slot)@),
{
    let kind = if r.kind == THETADATADX_SUB_KIND_TRADE {
        FullSubscriptionKind::Trades
    } else if r.kind == THETADATADX_SUB_KIND_OPEN_INTEREST {
        FullSubscriptionKind::OpenInterest
    } else if r.kind == THETADATADX_SUB_KIND_QUOTE {
        set_error_with_code(
            slot,
            "full-stream Quote is not a valid subscription".as_bytes(),
            THETADATADX_ERR_INVALID_PARAMETER,
        );
        return None;
    } else if r.kind == THETADATADX_SUB_KIND_MARKET_VALUE {
        set_error_with_code(
            slot,
            "full-stream MarketValue is not a valid subscription".as_bytes(),
            THETADATADX_ERR_INVALID_PARAMETER,
        );
        return None;
    } else {
        refuse_code(slot, "invalid kind ", r.kind);
        return None;
    };
    let SubscriptionRequest { scope: _, kind: _, symbol: _, expiration: _, strike: _, right: _, sec_type } = r;
    let st = match require_cstr(slot, "sec_type_ptr".as_bytes(), sec_type) {
        Some(s) => s,
        None => return None,
    };
    let upper = to_uppercase(st.as_str());
    match resolve_full_sec_type(slot, upper.as_str()) {
        Some(sec_type) => Some(Subscription::Full { sec_type, kind }),
        None => None,
    }
}

/// Decode a subscription request (`None` when the request pointer was
/// null). On success the slot is untouched; on refusal the slot records the
/// reason: a null or non-UTF-8 argument under the plain code, an unknown
/// scope / kind / security type under `THETADATADX_ERR_INVALID_PARAMETER`.
pub fn coerce_subscription(slot: &mut LastError, req: Option<SubscriptionRequest>) -> (out: Option<Subscription>)
    ensures
        coerce_post(spec_coerce(req), out, old(slot)@, final(slot)@),
{
    match req {
        None => {
            set_error(slot, "subscription request is null".as_bytes());
            None
        },
        Some(r) => {
            if r.scope == THETADATADX_SUB_SCOPE_CONTRACT {
                coerce_contract(slot, r)
            } else if r.scope == THETADATADX_SUB_SCOPE_FULL {
                coerce_full(slot, r)
            } else {
                refuse_code(slot, "invalid scope ", r.scope);
                None
            }
        },
    }
}

} // verus!
