//! Attribute routing of the Python `AsyncClient` façade.
//!
//! The async client proxies `*_async` market-data methods and an allowlist
//! of streaming helpers to the synchronous client; everything else is an
//! `AttributeError`. Names are compared as UTF-8 bytes, as `str` equality
//! and `ends_with` do.

use vstd::prelude::*;
use crate::text::{concat, const_bytes_eq, push_bytes, utf8};

verus! {

/// Names proxied from the async façade to the synchronous client.
pub open spec fn spec_allowed_proxy_methods() -> Seq<Seq<u8>> {
    seq![
        utf8("subscribe"), utf8("subscribe_many"), utf8("unsubscribe"), utf8("unsubscribe_many"),
        utf8("active_subscriptions"), utf8("active_full_subscriptions"), utf8("start_streaming"),
        utf8("stop_streaming"), utf8("shutdown"), utf8("reconnect"), utf8("streaming"),
        utf8("is_streaming"), utf8("await_drain"), utf8("dropped_event_count"), utf8("panic_count"),
        utf8("ring_occupancy"), utf8("ring_capacity"), utf8("is_authenticated"),
        utf8("millis_since_last_event"), utf8("last_event_received_at_unix_nanos"),
        utf8("last_connected_addr"), utf8("batches"), utf8("flat_files"),
    ]
}

/// Allowlisted names resolved on the client itself rather than on its
/// stream view.
pub open spec fn spec_direct_on_client() -> Seq<Seq<u8>> {
    seq![utf8("streaming"), utf8("flat_files")]
}

/// The allowlist.
pub fn allowed_unified_proxy_methods() -> (r: Vec<&'static str>)
    ensures
        r@.len() == spec_allowed_proxy_methods().len(),
        forall|i: int| 0 <= i < r@.len() ==> utf8(#[trigger] r@[i]) == spec_allowed_proxy_methods()[i],
{
    let mut r: Vec<&'static str> = Vec::new();
    r.push("subscribe");
    r.push("subscribe_many");
    r.push("unsubscribe");
    r.push("unsubscribe_many");
    r.push("active_subscriptions");
    r.push("active_full_subscriptions");
    r.push("start_streaming");
    r.push("stop_streaming");
    r.push("shutdown");
    r.push("reconnect");
    r.push("streaming");
    r.push("is_streaming");
    r.push("await_drain");
    r.push("dropped_event_count");
    r.push("panic_count");
    r.push("ring_occupancy");
    r.push("ring_capacity");
    r.push("is_authenticated");
    r.push("millis_since_last_event");
    r.push("last_event_received_at_unix_nanos");
    r.push("last_connected_addr");
    r.push("batches");
    r.push("flat_files");
    r
}

/// Whether a name is in a list of byte strings.
pub open spec fn listed(list: Seq<Seq<u8>>, name: Seq<u8>) -> bool {
    exists|i: int| 0 <= i < list.len() && #[trigger] list[i] == name
}

/// Whether `name` ends with `suffix`.
pub open spec fn ends_with(name: Seq<u8>, suffix: Seq<u8>) -> bool {
    name.len() >= suffix.len() && name.subrange(name.len() - suffix.len(), name.len() as int) == suffix
}

/// Whether `name` ends with `_async`.
pub open spec fn ends_with_async(name: Seq<u8>) -> bool {
    ends_with(name, utf8("_async"))
}

/// Where an attribute lookup on the async façade goes.
#[derive(Clone, Copy, Debug, PartialEq, Eq, Structural)]
pub enum AsyncRoute {
    /// An async market-data terminal: the market-data view, then the
    /// flat-files namespace.
    MarketData,
    /// A streaming helper on the stream view.
    Stream,
    /// A name resolved on the client itself.
    Client,
    /// Not on the async surface: `AttributeError`.
    Refused,
}

/// The route of a name.
pub open spec fn spec_async_route(name: Seq<u8>) -> AsyncRoute {
    if ends_with_async(name) {
        AsyncRoute::MarketData
    } else if !listed(spec_allowed_proxy_methods(), name) {
        AsyncRoute::Refused
    } else if listed(spec_direct_on_client(), name) {
        AsyncRoute::Client
    } else {
        AsyncRoute::Stream
    }
}

/// The `AttributeError` message for a refused name.
pub open spec fn not_async_message(name: Seq<u8>) -> Seq<u8> {
    utf8("AsyncClient surfaces only `*_async` market-data methods plus streaming lifecycle helpers; `")
        + name + utf8("` is not on the async surface. Use `Client` for the synchronous market-data methods.")
}

fn ends_with_bytes(name: &[u8], suffix: &[u8]) -> (r: bool)
    ensures
        r == ends_with(name@, suffix@),
{
    if name.len() < suffix.len() {
        return false;
    }
    let start = name.len() - suffix.len();
    let mut i: usize = 0;
    while i < suffix.len()
        invariant
            name@.len() >= suffix@.len(),
            start == name@.len() - suffix@.len(),
            name@.len() <= usize::MAX,
            i <= suffix@.len(),
            forall|j: int| 0 <= j < i ==> name@[start + j] == suffix@[j],
        decreases suffix@.len() - i,
    {
        if name[start + i] != suffix[i] {
            proof {
                assert(name@.subrange(start as int, name@.len() as int)[i as int] != suffix@[i as int]);
            }
            return false;
        }
        i = i + 1;
    }
    proof {
        assert(name@.subrange(start as int, name@.len() as int) =~= suffix@);
    }
    true
}

fn in_list(list: &Vec<&'static str>, name: &[u8]) -> (r: bool)
    ensures
        r == exists|i: int| 0 <= i < list@.len() && #[trigger] utf8(list@[i]) == name@,
{
    let mut i: usize = 0;
    while i < list.len()
        invariant
            i <= list@.len(),
            forall|j: int| 0 <= j < i ==> #[trigger] utf8(list@[j]) != name@,
        decreases list@.len() - i,
    {
        if const_bytes_eq(list[i].as_bytes(), name) {
            assert(utf8(list@[i as int]) == name@);
            return true;
        }
        i = i + 1;
    }
    false
}

fn direct_on_client() -> (r: Vec<&'static str>)
    ensures
        r@.len() == spec_direct_on_client().len(),
        forall|i: int| 0 <= i < r@.len() ==> utf8(#[trigger] r@[i]) == spec_direct_on_client()[i],
{
    let mut r: Vec<&'static str> = Vec::new();
    r.push("streaming");
    r.push("flat_files");
    r
}

/// Route an attribute lookup on the async façade: `*_async` names go to
/// the market-data terminals; allowlisted helpers go to the stream view,
/// except the two that stay on the client; anything else is refused with
/// the message naming it.
pub fn route_async_attr(name: &str) -> (r: (AsyncRoute, Option<Vec<u8>>))
    ensures
        r.0 == spec_async_route(utf8(name)),
        r.0 == AsyncRoute::Refused ==> (r.1 matches Some(m) && m@ == not_async_message(utf8(name))),
        r.0 != AsyncRoute::Refused ==> r.1 is None,
{
    let b = name.as_bytes();
    if ends_with_bytes(b, "_async".as_bytes()) {
        return (AsyncRoute::MarketData, None);
    }
    let allowed = allowed_unified_proxy_methods();
    let direct = direct_on_client();
    proof {
        assert(listed(spec_allowed_proxy_methods(), b@) == exists|i: int|
            0 <= i < allowed@.len() && #[trigger] utf8(allowed@[i]) == b@) by {
            if listed(spec_allowed_proxy_methods(), b@) {
                let i = choose|i: int| 0 <= i < spec_allowed_proxy_methods().len()
                    && #[trigger] spec_allowed_proxy_methods()[i] == b@;
                assert(utf8(allowed@[i]) == b@);
            }
        }
        assert(listed(spec_direct_on_client(), b@) == exists|i: int|
            0 <= i < direct@.len() && #[trigger] utf8(direct@[i]) == b@) by {
            if listed(spec_direct_on_client(), b@) {
                let i = choose|i: int| 0 <= i < spec_direct_on_client().len()
                    && #[trigger] spec_direct_on_client()[i] == b@;
                assert(utf8(direct@[i]) == b@);
            }
        }
    }
    if !in_list(&allowed, b) {
        let mut msg = concat(
            "AsyncClient surfaces only `*_async` market-data methods plus streaming lifecycle helpers; `".as_bytes(),
            b,
        );
        push_bytes(&mut msg, "` is not on the async surface. Use `Client` for the synchronous market-data methods.".as_bytes());
        return (AsyncRoute::Refused, Some(msg));
    }
    if in_list(&direct, b) {
        (AsyncRoute::Client, None)
    } else {
        (AsyncRoute::Stream, None)
    }
}


/// A name whose last byte is not `c` cannot end with `_async`.
proof fn lemma_not_async_suffix(name: Seq<u8>)
    requires
        name.len() > 0,
        name.last() != 99u8,
    ensures
        !ends_with_async(name),
{
    reveal_strlit("_async");
    broadcast use vstd::string::is_ascii_spec_bytes;
    assert(vstd::string::is_ascii("_async"));
    assert(utf8("_async").len() == 6);
    assert(utf8("_async")[5] == 99u8);
    if name.len() >= 6 {
        assert(name.subrange(name.len() - 6, name.len() as int)[5] == name.last());
    }
}

/// An allowlisted name at position `i` that is neither `_async` nor one of
/// the two names kept on the client goes to the stream view.
proof fn lemma_listed_helper_goes_to_stream(name: &str, i: int)
    requires
        0 <= i < spec_allowed_proxy_methods().len(),
        spec_allowed_proxy_methods()[i] == utf8(name),
        utf8(name).len() > 0,
        utf8(name).last() != 99u8,
        utf8(name) != utf8("streaming"),
        utf8(name) != utf8("flat_files"),
    ensures
        spec_async_route(utf8(name)) == AsyncRoute::Stream,
{
    lemma_not_async_suffix(utf8(name));
    assert(listed(spec_allowed_proxy_methods(), utf8(name)));
    assert(!listed(spec_direct_on_client(), utf8(name)));
}

/// The async façade's surface, name by name: every `*_async` name goes to
/// the market-data terminals; each streaming helper of the allowlist
/// (`subscribe`, `subscribe_many`, `unsubscribe`, `unsubscribe_many`, the
/// subscription snapshots, the lifecycle calls and the health getters)
/// goes to the stream view; `streaming` and `flat_files` resolve on the
/// client; every other name is refused with `AttributeError`.
#[verifier::rlimit(40)]
pub proof fn lemma_async_surface(name: Seq<u8>)
    ensures
        ends_with_async(name) ==> spec_async_route(name) == AsyncRoute::MarketData,
        (!ends_with_async(name) && name != utf8("subscribe") && name != utf8("subscribe_many") && name != utf8("unsubscribe") && name != utf8("unsubscribe_many") && name != utf8("active_subscriptions") && name != utf8("active_full_subscriptions") && name != utf8("start_streaming") && name != utf8("stop_streaming") && name != utf8("shutdown") && name != utf8("reconnect") && name != utf8("streaming") && name != utf8("is_streaming") && name != utf8("await_drain") && name != utf8("dropped_event_count") && name != utf8("panic_count") && name != utf8("ring_occupancy") && name != utf8("ring_capacity") && name != utf8("is_authenticated") && name != utf8("millis_since_last_event") && name != utf8("last_event_received_at_unix_nanos") && name != utf8("last_connected_addr") && name != utf8("batches") && name != utf8("flat_files")) ==> spec_async_route(name) == AsyncRoute::Refused,
        spec_async_route(utf8("subscribe")) == AsyncRoute::Stream,
        spec_async_route(utf8("subscribe_many")) == AsyncRoute::Stream,
        spec_async_route(utf8("unsubscribe")) == AsyncRoute::Stream,
        spec_async_route(utf8("unsubscribe_many")) == AsyncRoute::Stream,
        spec_async_route(utf8("active_subscriptions")) == AsyncRoute::Stream,
        spec_async_route(utf8("active_full_subscriptions")) == AsyncRoute::Stream,
        spec_async_route(utf8("start_streaming")) == AsyncRoute::Stream,
        spec_async_route(utf8("stop_streaming")) == AsyncRoute::Stream,
        spec_async_route(utf8("shutdown")) == AsyncRoute::Stream,
        spec_async_route(utf8("reconnect")) == AsyncRoute::Stream,
        spec_async_route(utf8("is_streaming")) == AsyncRoute::Stream,
        spec_async_route(utf8("await_drain")) == AsyncRoute::Stream,
        spec_async_route(utf8("dropped_event_count")) == AsyncRoute::Stream,
        spec_async_route(utf8("panic_count")) == AsyncRoute::Stream,
        spec_async_route(utf8("ring_occupancy")) == AsyncRoute::Stream,
        spec_async_route(utf8("ring_capacity")) == AsyncRoute::Stream,
        spec_async_route(utf8("is_authenticated")) == AsyncRoute::Stream,
        spec_async_route(utf8("millis_since_last_event")) == AsyncRoute::Stream,
        spec_async_route(utf8("last_event_received_at_unix_nanos")) == AsyncRoute::Stream,
        spec_async_route(utf8("last_connected_addr")) == AsyncRoute::Stream,
        spec_async_route(utf8("batches")) == AsyncRoute::Stream,
        spec_async_route(utf8("streaming")) == AsyncRoute::Client,
        spec_async_route(utf8("flat_files")) == AsyncRoute::Client,
{
    broadcast use vstd::string::is_ascii_spec_bytes;
    reveal_strlit("subscribe");
    reveal_strlit("subscribe_many");
    reveal_strlit("unsubscribe");
    reveal_strlit("unsubscribe_many");
    reveal_strlit("active_subscriptions");
    reveal_strlit("active_full_subscriptions");
    reveal_strlit("start_streaming");
    reveal_strlit("stop_streaming");
    reveal_strlit("shutdown");
    reveal_strlit("reconnect");
    reveal_strlit("streaming");
    reveal_strlit("is_streaming");
    reveal_strlit("await_drain");
    reveal_strlit("dropped_event_count");
    reveal_strlit("panic_count");
    reveal_strlit("ring_occupancy");
    reveal_strlit("ring_capacity");
    reveal_strlit("is_authenticated");
    reveal_strlit("millis_since_last_event");
    reveal_strlit("last_event_received_at_unix_nanos");
    reveal_strlit("last_connected_addr");
    reveal_strlit("batches");
    reveal_strlit("flat_files");
    assert(vstd::string::is_ascii("subscribe"));
    assert(vstd::string::is_ascii("subscribe_many"));
    assert(vstd::string::is_ascii("unsubscribe"));
    assert(vstd::string::is_ascii("unsubscribe_many"));
    assert(vstd::string::is_ascii("active_subscriptions"));
    assert(vstd::string::is_ascii("active_full_subscriptions"));
    assert(vstd::string::is_ascii("start_streaming"));
    assert(vstd::string::is_ascii("stop_streaming"));
    assert(vstd::string::is_ascii("shutdown"));
    assert(vstd::string::is_ascii("reconnect"));
    assert(vstd::string::is_ascii("streaming"));
    assert(vstd::string::is_ascii("is_streaming"));
    assert(vstd::string::is_ascii("await_drain"));
    assert(vstd::string::is_ascii("dropped_event_count"));
    assert(vstd::string::is_ascii("panic_count"));
    assert(vstd::string::is_ascii("ring_occupancy"));
    assert(vstd::string::is_ascii("ring_capacity"));
    assert(vstd::string::is_ascii("is_authenticated"));
    assert(vstd::string::is_ascii("millis_since_last_event"));
    assert(vstd::string::is_ascii("last_event_received_at_unix_nanos"));
    assert(vstd::string::is_ascii("last_connected_addr"));
    assert(vstd::string::is_ascii("batches"));
    assert(vstd::string::is_ascii("flat_files"));
    lemma_listed_helper_goes_to_stream("subscribe", 0);
    lemma_listed_helper_goes_to_stream("subscribe_many", 1);
    lemma_listed_helper_goes_to_stream("unsubscribe", 2);
    lemma_listed_helper_goes_to_stream("unsubscribe_many", 3);
    lemma_listed_helper_goes_to_stream("active_subscriptions", 4);
    lemma_listed_helper_goes_to_stream("active_full_subscriptions", 5);
    lemma_listed_helper_goes_to_stream("start_streaming", 6);
    lemma_listed_helper_goes_to_stream("stop_streaming", 7);
    lemma_listed_helper_goes_to_stream("shutdown", 8);
    lemma_listed_helper_goes_to_stream("reconnect", 9);
    lemma_listed_helper_goes_to_stream("is_streaming", 11);
    lemma_listed_helper_goes_to_stream("await_drain", 12);
    lemma_listed_helper_goes_to_stream("dropped_event_count", 13);
    lemma_listed_helper_goes_to_stream("panic_count", 14);
    lemma_listed_helper_goes_to_stream("ring_occupancy", 15);
    lemma_listed_helper_goes_to_stream("ring_capacity", 16);
    lemma_listed_helper_goes_to_stream("is_authenticated", 17);
    lemma_listed_helper_goes_to_stream("millis_since_last_event", 18);
    lemma_listed_helper_goes_to_stream("last_event_received_at_unix_nanos", 19);
    lemma_listed_helper_goes_to_stream("last_connected_addr", 20);
    lemma_listed_helper_goes_to_stream("batches", 21);
    lemma_not_async_suffix(utf8("streaming"));
    lemma_not_async_suffix(utf8("flat_files"));
    assert(listed(spec_allowed_proxy_methods(), utf8("streaming")));
    assert(listed(spec_direct_on_client(), utf8("streaming")));
    assert(listed(spec_allowed_proxy_methods(), utf8("flat_files")));
    assert(listed(spec_direct_on_client(), utf8("flat_files")));
}

} // verus!
