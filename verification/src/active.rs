//! The labels active subscriptions are reported under, and the checks the
//! reported (kind, contract) pairs pass before they become C strings.

use vstd::prelude::*;
use vstd::string::StringSliceAdditionalSpecFns;
use crate::error_slot::{after_set_error, set_error, LastError, LastErrorView};
use crate::subscription::{spec_full_sec_type, FullSubscriptionKind, SecType, Subscription, SubscriptionKind};
use crate::text::{bytes_of, concat, contains_nul, push_bytes, utf8};

verus! {

/// The snake_case label of a per-contract kind.
pub open spec fn spec_kind_label(k: SubscriptionKind) -> Seq<char> {
    match k {
        SubscriptionKind::Quote => "quote"@,
        SubscriptionKind::Trade => "trade"@,
        SubscriptionKind::OpenInterest => "open_interest"@,
        SubscriptionKind::MarketValue => "market_value"@,
    }
}

/// The label a per-contract subscription kind is reported under.
pub fn kind_label(k: SubscriptionKind) -> (s: &'static str)
    ensures
        s@ == spec_kind_label(k),
{
    match k {
        SubscriptionKind::Quote => "quote",
        SubscriptionKind::Trade => "trade",
        SubscriptionKind::OpenInterest => "open_interest",
        SubscriptionKind::MarketValue => "market_value",
    }
}

/// The label of a full-stream kind.
pub open spec fn spec_full_stream_label(k: FullSubscriptionKind) -> Seq<char> {
    match k {
        FullSubscriptionKind::Trades => "full_trades"@,
        FullSubscriptionKind::OpenInterest => "full_open_interest"@,
    }
}

/// The label a full-stream subscription kind is reported under.
pub fn full_stream_label(k: FullSubscriptionKind) -> (s: &'static str)
    ensures
        s@ == spec_full_stream_label(k),
{
    match k {
        FullSubscriptionKind::Trades => "full_trades",
        FullSubscriptionKind::OpenInterest => "full_open_interest",
    }
}

/// The full-stream form of a kind: trades and open interest have one,
/// quotes and market value are per-contract only.
pub open spec fn spec_full_form(k: SubscriptionKind) -> Option<FullSubscriptionKind> {
    match k {
        SubscriptionKind::Trade => Some(FullSubscriptionKind::Trades),
        SubscriptionKind::OpenInterest => Some(FullSubscriptionKind::OpenInterest),
        _ => None,
    }
}

/// The full-stream form of a kind, if it has one.
pub fn full_form(k: SubscriptionKind) -> (r: Option<FullSubscriptionKind>)
    ensures
        r == spec_full_form(k),
{
    match k {
        SubscriptionKind::Trade => Some(FullSubscriptionKind::Trades),
        SubscriptionKind::OpenInterest => Some(FullSubscriptionKind::OpenInterest),
        _ => None,
    }
}

/// The wire-level kind label of any subscription.
pub open spec fn spec_subscription_label(s: Subscription) -> Seq<char> {
    match s {
        Subscription::Contract { kind, .. } => spec_kind_label(kind),
        Subscription::Full { kind, .. } => spec_full_stream_label(kind),
    }
}

/// The wire-level kind label of a subscription: `quote`, `trade`,
/// `open_interest`, `market_value`, `full_trades` or `full_open_interest`.
pub fn subscription_label(s: &Subscription) -> (l: &'static str)
    ensures
        l@ == spec_subscription_label(*s),
{
    match s {
        Subscription::Contract { kind, .. } => kind_label(*kind),
        Subscription::Full { kind, .. } => full_stream_label(*kind),
    }
}

/// Whether a subscription covers a whole security type.
pub fn is_full(s: &Subscription) -> (r: bool)
    ensures
        r == (*s is Full),
{
    match s {
        Subscription::Full { .. } => true,
        _ => false,
    }
}

/// The variant name of a security type (its `Debug` rendering).
pub open spec fn spec_sec_type_variant(t: SecType) -> Seq<char> {
    match t {
        SecType::Stock => "Stock"@,
        SecType::Option => "Option"@,
        SecType::Index => "Index"@,
        SecType::Rate => "Rate"@,
    }
}

/// The variant name a full-stream subscription's security type is
/// reported under.
pub fn sec_type_variant(t: SecType) -> (s: &'static str)
    ensures
        s@ == spec_sec_type_variant(t),
{
    match t {
        SecType::Stock => "Stock",
        SecType::Option => "Option",
        SecType::Index => "Index",
        SecType::Rate => "Rate",
    }
}

/// The upper-case symbolic name of a security type.
pub open spec fn spec_sec_type_name(t: SecType) -> Seq<char> {
    match t {
        SecType::Stock => "STOCK"@,
        SecType::Option => "OPTION"@,
        SecType::Index => "INDEX"@,
        SecType::Rate => "RATE"@,
    }
}

/// The upper-case symbolic name of a security type.
pub fn sec_type_name(t: SecType) -> (s: &'static str)
    ensures
        s@ == spec_sec_type_name(t),
{
    match t {
        SecType::Stock => "STOCK",
        SecType::Option => "OPTION",
        SecType::Index => "INDEX",
        SecType::Rate => "RATE",
    }
}

/// The names subscriptions are reported under: per-contract kinds read
/// `quote`, `trade`, `open_interest` and `market_value` (variants `Quote`,
/// `Trade`, `OpenInterest`, `MarketValue`); full-stream kinds read
/// `full_trades` and `full_open_interest` (variants `Trades`,
/// `OpenInterest`); exactly trades and open interest have a full-stream
/// form, trades becoming full trades and open interest full open interest;
/// a security type's symbolic name (`STOCK`, `OPTION`, `INDEX`, `RATE`)
/// selects that same type again as a full-stream selector, except `RATE`,
/// which is not streamable.
pub proof fn lemma_subscription_names(k: SubscriptionKind, t: SecType)
    ensures
        spec_kind_label(SubscriptionKind::Quote) == "quote"@,
        spec_kind_label(SubscriptionKind::Trade) == "trade"@,
        spec_kind_label(SubscriptionKind::OpenInterest) == "open_interest"@,
        spec_kind_label(SubscriptionKind::MarketValue) == "market_value"@,
        spec_kind_variant(SubscriptionKind::Quote) == "Quote",
        spec_kind_variant(SubscriptionKind::Trade) == "Trade",
        spec_kind_variant(SubscriptionKind::OpenInterest) == "OpenInterest",
        spec_kind_variant(SubscriptionKind::MarketValue) == "MarketValue",
        spec_full_stream_label(FullSubscriptionKind::Trades) == "full_trades"@,
        spec_full_stream_label(FullSubscriptionKind::OpenInterest) == "full_open_interest"@,
        spec_full_kind_variant(FullSubscriptionKind::Trades) == "Trades",
        spec_full_kind_variant(FullSubscriptionKind::OpenInterest) == "OpenInterest",
        (spec_full_form(k) is Some) == (k == SubscriptionKind::Trade || k == SubscriptionKind::OpenInterest),
        spec_full_form(SubscriptionKind::Trade) == Some(FullSubscriptionKind::Trades),
        spec_full_form(SubscriptionKind::OpenInterest) == Some(FullSubscriptionKind::OpenInterest),
        spec_sec_type_name(SecType::Stock) == "STOCK"@,
        spec_sec_type_name(SecType::Option) == "OPTION"@,
        spec_sec_type_name(SecType::Index) == "INDEX"@,
        spec_sec_type_name(SecType::Rate) == "RATE"@,
        spec_sec_type_variant(SecType::Stock) == "Stock"@,
        spec_sec_type_variant(SecType::Option) == "Option"@,
        spec_sec_type_variant(SecType::Index) == "Index"@,
        spec_sec_type_variant(SecType::Rate) == "Rate"@,
        t != SecType::Rate ==> spec_full_sec_type(spec_sec_type_name(t)) == Some(t),
        spec_full_sec_type(spec_sec_type_name(SecType::Rate)) is None,
{
    reveal_strlit("STOCK");
    reveal_strlit("OPTION");
    reveal_strlit("INDEX");
    reveal_strlit("RATE");
    assert("OPTION"@.len() != "STOCK"@.len());
    assert("INDEX"@[0] != "STOCK"@[0]);
    assert("INDEX"@.len() != "OPTION"@.len());
    assert("RATE"@.len() != "STOCK"@.len());
    assert("RATE"@.len() != "OPTION"@.len());
    assert("RATE"@.len() != "INDEX"@.len());
}

/// One reported subscription: its kind label and its contract text.
pub struct SubscriptionEntry {
    pub kind: Vec<u8>,
    pub contract: Vec<u8>,
}

impl View for SubscriptionEntry {
    type V = (Seq<u8>, Seq<u8>);

    open spec fn view(&self) -> (Seq<u8>, Seq<u8>) {
        (self.kind@, self.contract@)
    }
}

/// The abstract content of a list of entries.
pub open spec fn entries_view(v: Seq<SubscriptionEntry>) -> Seq<(Seq<u8>, Seq<u8>)> {
    v.map_values(|e: SubscriptionEntry| e@)
}

/// The entries reported for active per-contract subscriptions, given each
/// subscription's kind and the rendering of its contract.
pub open spec fn spec_contract_entries(subs: Seq<(SubscriptionKind, Seq<u8>)>) -> Seq<(Seq<u8>, Seq<u8>)> {
    subs.map_values(|p: (SubscriptionKind, Seq<u8>)| (utf8_of_label(spec_kind_label(p.0)), p.1))
}

/// UTF-8 bytes of a label.
pub open spec fn utf8_of_label(s: Seq<char>) -> Seq<u8> {
    vstd::utf8::encode_utf8(s)
}

/// Entries for active per-contract subscriptions: each kind's label beside
/// its contract text, in order.
pub fn contract_entries(subs: &Vec<(SubscriptionKind, Vec<u8>)>) -> (out: Vec<SubscriptionEntry>)
    ensures
        entries_view(out@) == spec_contract_entries(subs@.map_values(|p: (SubscriptionKind, Vec<u8>)| (p.0, p.1@))),
{
    let ghost src = subs@.map_values(|p: (SubscriptionKind, Vec<u8>)| (p.0, p.1@));
    let mut out: Vec<SubscriptionEntry> = Vec::with_capacity(subs.len());
    let mut i: usize = 0;
    while i < subs.len()
        invariant
            i <= subs@.len(),
            src == subs@.map_values(|p: (SubscriptionKind, Vec<u8>)| (p.0, p.1@)),
            entries_view(out@) == spec_contract_entries(src.subrange(0, i as int)),
        decreases subs@.len() - i,
    {
        let label = kind_label(subs[i].0);
        let entry = SubscriptionEntry {
            kind: bytes_of(label.as_bytes()),
            contract: bytes_of(subs[i].1.as_slice()),
        };
        let ghost prev = out@;
        let ghost ev = entry@;
        assert(ev == (utf8_of_label(spec_kind_label(src[i as int].0)), src[i as int].1));
        out.push(entry);
        proof {
            assert(entries_view(out@) =~= entries_view(prev).push(ev));
            assert(src.subrange(0, i + 1) =~= src.subrange(0, i as int).push(src[i as int]));
            assert(spec_contract_entries(src.subrange(0, i + 1)) =~= spec_contract_entries(
                src.subrange(0, i as int),
            ).push(ev));
        }
        i = i + 1;
    }
    proof {
        assert(src.subrange(0, subs@.len() as int) =~= src);
    }
    out
}

/// The entries reported for active full-stream subscriptions: kinds with a
/// full-stream form, labelled, beside the security type's variant name; the
/// others are omitted.
pub open spec fn spec_full_entries(subs: Seq<(SubscriptionKind, SecType)>) -> Seq<(Seq<u8>, Seq<u8>)>
    decreases subs.len(),
{
    if subs.len() == 0 {
        Seq::empty()
    } else {
        let rest = spec_full_entries(subs.drop_last());
        let last = subs.last();
        match spec_full_form(last.0) {
            Some(f) => rest.push((
                utf8_of_label(spec_full_stream_label(f)),
                utf8_of_label(spec_sec_type_variant(last.1)),
            )),
            None => rest,
        }
    }
}

/// Entries for active full-stream subscriptions, in order, skipping kinds
/// without a full-stream form.
pub fn full_entries(subs: &Vec<(SubscriptionKind, SecType)>) -> (out: Vec<SubscriptionEntry>)
    ensures
        entries_view(out@) == spec_full_entries(subs@),
{
    let mut out: Vec<SubscriptionEntry> = Vec::new();
    let mut i: usize = 0;
    while i < subs.len()
        invariant
            i <= subs@.len(),
            entries_view(out@) == spec_full_entries(subs@.subrange(0, i as int)),
        decreases subs@.len() - i,
    {
        let (k, st) = subs[i];
        proof {
            assert(subs@.subrange(0, i + 1).drop_last() =~= subs@.subrange(0, i as int));
        }
        match full_form(k) {
            Some(f) => {
                let entry = SubscriptionEntry {
                    kind: bytes_of(full_stream_label(f).as_bytes()),
                    contract: bytes_of(sec_type_variant(st).as_bytes()),
                };
                let ghost prev = out@;
                let ghost ev = entry@;
                out.push(entry);
                proof {
                    assert(entries_view(out@) =~= entries_view(prev).push(ev));
                }
            },
            None => {},
        }
        i = i + 1;
    }
    proof {
        assert(subs@.subrange(0, subs@.len() as int) =~= subs@);
    }
    out
}

/// Whether a byte string holds a NUL.
pub open spec fn has_nul(s: Seq<u8>) -> bool {
    exists|i: int| 0 <= i < s.len() && s[i] == 0u8
}

/// The index of the first entry with a NUL in its kind or contract, if any.
pub open spec fn first_nul_entry(v: Seq<(Seq<u8>, Seq<u8>)>, k: int) -> bool {
    &&& 0 <= k < v.len()
    &&& (has_nul(v[k].0) || has_nul(v[k].1))
    &&& forall|j: int| 0 <= j < k ==> !has_nul(#[trigger] v[j].0) && !has_nul(v[j].1)
}

/// The refusal for a list of entries, if any: the first entry holding a NUL
/// is reported, its kind checked before its contract.
pub open spec fn spec_entries_refusal(v: Seq<(Seq<u8>, Seq<u8>)>) -> Option<Seq<u8>> {
    if forall|j: int| 0 <= j < v.len() ==> !has_nul(#[trigger] v[j].0) && !has_nul(v[j].1) {
        None
    } else {
        let k = choose|k: int| first_nul_entry(v, k);
        Some(if has_nul(v[k].0) {
            utf8("subscription kind contains null byte")
        } else {
            utf8("subscription contract contains null byte")
        })
    }
}

/// There is only one first entry with a NUL.
proof fn lemma_first_nul_unique(v: Seq<(Seq<u8>, Seq<u8>)>, a: int, b: int)
    requires
        first_nul_entry(v, a),
        first_nul_entry(v, b),
    ensures
        a == b,
{
    if a < b {
        assert(!has_nul(v[a].0) && !has_nul(v[a].1));
    } else if b < a {
        assert(!has_nul(v[b].0) && !has_nul(v[b].1));
    }
}

/// Decide whether reported entries can become C strings: `None` when no
/// kind or contract holds a NUL, otherwise the message naming what the
/// first offending entry holds it in.
pub fn entries_refusal(entries: &Vec<SubscriptionEntry>) -> (r: Option<&'static str>)
    ensures
        match spec_entries_refusal(entries_view(entries@)) {
            None => r is None,
            Some(m) => r matches Some(t) && utf8(t) == m,
        },
{
    let ghost v = entries_view(entries@);
    let mut i: usize = 0;
    let mut bad: bool = false;
    while i < entries.len()
        invariant
            i <= entries@.len(),
            v == entries_view(entries@),
            forall|j: int| 0 <= j < i ==> !has_nul(#[trigger] v[j].0) && !has_nul(v[j].1),
            bad ==> i < entries@.len() && (has_nul(v[i as int].0) || has_nul(v[i as int].1)),
        ensures
            bad || i == entries@.len(),
        decreases entries@.len() - i,
    {
        proof {
            assert(v[i as int] == (entries@[i as int].kind@, entries@[i as int].contract@));
        }
        if contains_nul(entries[i].kind.as_slice()) || contains_nul(entries[i].contract.as_slice()) {
            bad = true;
            break;
        }
        assert forall|j: int| 0 <= j < i + 1 implies !has_nul(#[trigger] v[j].0) && !has_nul(v[j].1) by {
            if j == i as int {
                assert(v[i as int] == (entries@[i as int].kind@, entries@[i as int].contract@));
            }
        }
        i = i + 1;
    }
    if bad {
        assert(v[i as int] == (entries@[i as int].kind@, entries@[i as int].contract@));
        assert(first_nul_entry(v, i as int));
        proof {
            let k = choose|k: int| first_nul_entry(v, k);
            lemma_first_nul_unique(v, k, i as int);
        }
        if contains_nul(entries[i].kind.as_slice()) {
            Some("subscription kind contains null byte")
        } else {
            Some("subscription contract contains null byte")
        }
    } else {
        None
    }
}

/// Check reported entries before they become C strings, recording a
/// refusal in the thread's error slot.
pub fn check_subscription_entries(slot: &mut LastError, entries: &Vec<SubscriptionEntry>) -> (ok: bool)
    ensures
        ok == (spec_entries_refusal(entries_view(entries@)) is None),
        match spec_entries_refusal(entries_view(entries@)) {
            None => final(slot)@ == old(slot)@,
            Some(m) => final(slot)@ == after_set_error(m),
        },
{
    match entries_refusal(entries) {
        None => true,
        Some(m) => {
            set_error(slot, m.as_bytes());
            false
        },
    }
}

/// The variant name of a per-contract kind (its `Debug` rendering).
pub open spec fn spec_kind_variant(k: SubscriptionKind) -> &'static str {
    match k {
        SubscriptionKind::Quote => "Quote",
        SubscriptionKind::Trade => "Trade",
        SubscriptionKind::OpenInterest => "OpenInterest",
        SubscriptionKind::MarketValue => "MarketValue",
    }
}

/// The variant name of a per-contract kind.
pub fn kind_variant(k: SubscriptionKind) -> (s: &'static str)
    ensures
        s == spec_kind_variant(k),
{
    match k {
        SubscriptionKind::Quote => "Quote",
        SubscriptionKind::Trade => "Trade",
        SubscriptionKind::OpenInterest => "OpenInterest",
        SubscriptionKind::MarketValue => "MarketValue",
    }
}

/// The variant name of a full-stream kind (its `Debug` rendering).
pub open spec fn spec_full_kind_variant(k: FullSubscriptionKind) -> &'static str {
    match k {
        FullSubscriptionKind::Trades => "Trades",
        FullSubscriptionKind::OpenInterest => "OpenInterest",
    }
}

/// The variant name of a full-stream kind.
pub fn full_kind_variant(k: FullSubscriptionKind) -> (s: &'static str)
    ensures
        s == spec_full_kind_variant(k),
{
    match k {
        FullSubscriptionKind::Trades => "Trades",
        FullSubscriptionKind::OpenInterest => "OpenInterest",
    }
}

/// The Python `repr` of a subscription: the kind's variant name with the
/// rendered contract, or `full`, the kind and the security type's variant
/// name. `contract_text` is the contract's display form (unused for a
/// full-stream subscription).
pub open spec fn spec_subscription_repr(s: Subscription, contract_text: Seq<u8>) -> Seq<u8> {
    match s {
        Subscription::Contract { kind, .. } => utf8("Subscription(") + utf8(spec_kind_variant(kind))
            + utf8(", ") + contract_text + utf8(")"),
        Subscription::Full { sec_type, kind } => utf8("Subscription(full ")
            + utf8(spec_full_kind_variant(kind)) + utf8(", ")
            + vstd::utf8::encode_utf8(spec_sec_type_variant(sec_type)) + utf8(")"),
    }
}

/// Render `Subscription.__repr__`.
pub fn subscription_repr(s: &Subscription, contract_text: &[u8]) -> (r: Vec<u8>)
    ensures
        r@ == spec_subscription_repr(*s, contract_text@),
{
    match s {
        Subscription::Contract { kind, .. } => {
            let mut out = concat("Subscription(".as_bytes(), kind_variant(*kind).as_bytes());
            push_bytes(&mut out, ", ".as_bytes());
            push_bytes(&mut out, contract_text);
            push_bytes(&mut out, ")".as_bytes());
            out
        },
        Subscription::Full { sec_type, kind } => {
            let mut out = concat("Subscription(full ".as_bytes(), full_kind_variant(*kind).as_bytes());
            push_bytes(&mut out, ", ".as_bytes());
            push_bytes(&mut out, sec_type_variant(*sec_type).as_bytes());
            push_bytes(&mut out, ")".as_bytes());
            out
        },
    }
}

/// The Python `repr` of a security type: `SecType.` and its name.
pub fn sec_type_repr(t: SecType) -> (r: Vec<u8>)
    ensures
        r@ == utf8("SecType.") + vstd::utf8::encode_utf8(spec_sec_type_name(t)),
{
    concat("SecType.".as_bytes(), sec_type_name(t).as_bytes())
}

/// The option right of a contract: `C` for a call, `P` for a put, none
/// for a contract that is not an option.
pub fn right_label(is_call: Option<bool>) -> (r: Option<&'static str>)
    ensures
        match is_call {
            Some(true) => r matches Some(s) && s@ == "C"@,
            Some(false) => r matches Some(s) && s@ == "P"@,
            None => r is None,
        },
{
    match is_call {
        Some(true) => Some("C"),
        Some(false) => Some("P"),
        None => None,
    }
}

/// The full-stream subscriptions a snapshot of (kind, security type) rows
/// projects to: kinds with a full-stream form, in order; the others are
/// dropped.
pub open spec fn spec_full_subscriptions(rows: Seq<(SubscriptionKind, SecType)>) -> Seq<(FullSubscriptionKind, SecType)>
    decreases rows.len(),
{
    if rows.len() == 0 {
        Seq::empty()
    } else {
        let rest = spec_full_subscriptions(rows.drop_last());
        match spec_full_form(rows.last().0) {
            Some(f) => rest.push((f, rows.last().1)),
            None => rest,
        }
    }
}

/// The abstract content of a list of full-stream subscriptions.
pub open spec fn full_subs_view(v: Seq<Subscription>) -> Seq<(FullSubscriptionKind, SecType)> {
    v.map_values(|s: Subscription| match s {
        Subscription::Full { sec_type, kind } => (kind, sec_type),
        Subscription::Contract { .. } => (FullSubscriptionKind::Trades, SecType::Stock),
    })
}

/// Project a snapshot of active full-stream rows to typed subscriptions,
/// as the Python `active_full_subscriptions` returns them.
pub fn full_subscriptions(rows: &Vec<(SubscriptionKind, SecType)>) -> (out: Vec<Subscription>)
    ensures
        full_subs_view(out@) == spec_full_subscriptions(rows@),
        forall|i: int| 0 <= i < out@.len() ==> #[trigger] out@[i] is Full,
{
    let mut out: Vec<Subscription> = Vec::new();
    let mut i: usize = 0;
    while i < rows.len()
        invariant
            i <= rows@.len(),
            full_subs_view(out@) == spec_full_subscriptions(rows@.subrange(0, i as int)),
            forall|j: int| 0 <= j < out@.len() ==> #[trigger] out@[j] is Full,
        decreases rows@.len() - i,
    {
        let (k, st) = rows[i];
        proof {
            assert(rows@.subrange(0, i + 1).drop_last() =~= rows@.subrange(0, i as int));
        }
        match full_form(k) {
            Some(f) => {
                let ghost prev = out@;
                out.push(Subscription::Full { sec_type: st, kind: f });
                proof {
                    assert(full_subs_view(out@) =~= full_subs_view(prev).push((f, st)));
                }
            },
            None => {},
        }
        i = i + 1;
    }
    proof {
        assert(rows@.subrange(0, rows@.len() as int) =~= rows@);
    }
    out
}

/// The entries the older ABI reports for active per-contract
/// subscriptions: each kind's variant name beside its contract text.
pub open spec fn spec_variant_entries(subs: Seq<(SubscriptionKind, Seq<u8>)>) -> Seq<(Seq<u8>, Seq<u8>)> {
    subs.map_values(|p: (SubscriptionKind, Seq<u8>)| (utf8(spec_kind_variant(p.0)), p.1))
}

/// Entries labelled with the kind's variant name, in order.
pub fn variant_entries(subs: &Vec<(SubscriptionKind, Vec<u8>)>) -> (out: Vec<SubscriptionEntry>)
    ensures
        entries_view(out@) == spec_variant_entries(subs@.map_values(|p: (SubscriptionKind, Vec<u8>)| (p.0, p.1@))),
{
    let ghost src = subs@.map_values(|p: (SubscriptionKind, Vec<u8>)| (p.0, p.1@));
    let mut out: Vec<SubscriptionEntry> = Vec::with_capacity(subs.len());
    let mut i: usize = 0;
    while i < subs.len()
        invariant
            i <= subs@.len(),
            src == subs@.map_values(|p: (SubscriptionKind, Vec<u8>)| (p.0, p.1@)),
            out@.len() == i,
            forall|j: int| 0 <= j < i ==> (#[trigger] out@[j])@ == spec_variant_entries(src)[j],
        decreases subs@.len() - i,
    {
        let entry = SubscriptionEntry {
            kind: bytes_of(kind_variant(subs[i].0).as_bytes()),
            contract: bytes_of(subs[i].1.as_slice()),
        };
        out.push(entry);
        i = i + 1;
    }
    proof {
        assert(entries_view(out@) =~= spec_variant_entries(src));
    }
    out
}

} // verus!
