//! Argument rules of the Python `Client` and `Config`: which credential
//! source the inline constructor uses, how environment selectors and the
//! reconnect policy are parsed, and the per-thread marker that detects
//! re-entry from a streaming delivery handler.

use vstd::prelude::*;
use crate::py_errors::{raises, PyErrorClass, PyRaise};
use crate::std_text::{debug_format, debug_quoted, to_lowercase, unicode_lowercase};
use crate::text::{concat, push_bytes, utf8};

verus! {

fn raise(class: PyErrorClass, msg: &[u8]) -> (r: PyRaise)
    ensures
        raises(r, class, msg@),
{
    PyRaise { class: class, message: crate::text::bytes_of(msg) }
}

// ── credentials ─────────────────────────────────────────────────────────

/// The credential source the inline constructor resolved to; `C` is the
/// pre-built credentials handle.
pub enum CredentialChoice<C> {
    ApiKey(String),
    EmailPassword { email: String, password: String },
    Handle(C),
}

pub open spec fn no_auth_message() -> Seq<u8> {
    utf8("no authentication argument given — pass api_key=..., the email=... and password=... pair, or credentials=...")
}

pub open spec fn conflicting_auth_message() -> Seq<u8> {
    utf8("conflicting authentication arguments — pass exactly one of api_key, the email/password pair, or credentials")
}

pub open spec fn half_pair_message() -> Seq<u8> {
    utf8("email/password authentication needs both email= and password=")
}

/// How many distinct authentication methods were supplied; an email or a
/// password (or both) count as the one email/password method.
pub open spec fn auth_methods<C>(
    credentials: Option<C>,
    api_key: Option<String>,
    email: Option<String>,
    password: Option<String>,
) -> int {
    (if api_key is Some { 1int } else { 0int })
        + (if email is Some || password is Some { 1int } else { 0int })
        + (if credentials is Some { 1int } else { 0int })
}

/// The credential source the arguments select, or the message of the
/// `ConfigError` they raise.
pub open spec fn spec_resolve_credentials<C>(
    credentials: Option<C>,
    api_key: Option<String>,
    email: Option<String>,
    password: Option<String>,
) -> Result<CredentialChoice<C>, Seq<u8>> {
    let n = auth_methods(credentials, api_key, email, password);
    if n == 0 {
        Err(no_auth_message())
    } else if n > 1 {
        Err(conflicting_auth_message())
    } else if api_key is Some {
        Ok(CredentialChoice::ApiKey(api_key->0))
    } else if email is Some || password is Some {
        if email is Some && password is Some {
            Ok(CredentialChoice::EmailPassword { email: email->0, password: password->0 })
        } else {
            Err(half_pair_message())
        }
    } else {
        Ok(CredentialChoice::Handle(credentials->0))
    }
}

/// Resolve the inline authentication arguments: exactly one method must be
/// given (none or several raise `ConfigError`); an API key is used as is,
/// an email needs its password and vice versa, and otherwise the pre-built
/// handle is used.
pub fn resolve_credentials<C>(
    credentials: Option<C>,
    api_key: Option<String>,
    email: Option<String>,
    password: Option<String>,
) -> (r: Result<CredentialChoice<C>, PyRaise>)
    ensures
        match spec_resolve_credentials(credentials, api_key, email, password) {
            Ok(c) => r matches Ok(c2) && c2 == c,
            Err(m) => r matches Err(e) && raises(e, PyErrorClass::ConfigError, m),
        },
{
    let has_api_key = api_key.is_some();
    let has_email_pw = email.is_some() || password.is_some();
    let has_credentials = credentials.is_some();
    let set_count: u8 = (if has_api_key { 1u8 } else { 0u8 }) + (if has_email_pw { 1u8 } else { 0u8 })
        + (if has_credentials { 1u8 } else { 0u8 });
    if set_count == 0 {
        return Err(raise(
            PyErrorClass::ConfigError,
            "no authentication argument given — pass api_key=..., the email=... and password=... pair, or credentials=...".as_bytes(),
        ));
    }
    if set_count > 1 {
        return Err(raise(
            PyErrorClass::ConfigError,
            "conflicting authentication arguments — pass exactly one of api_key, the email/password pair, or credentials".as_bytes(),
        ));
    }
    if let Some(key) = api_key {
        return Ok(CredentialChoice::ApiKey(key));
    }
    if has_email_pw {
        return match (email, password) {
            (Some(e), Some(p)) => Ok(CredentialChoice::EmailPassword { email: e, password: p }),
            _ => Err(raise(
                PyErrorClass::ConfigError,
                "email/password authentication needs both email= and password=".as_bytes(),
            )),
        };
    }
    match credentials {
        Some(c) => Ok(CredentialChoice::Handle(c)),
        None => {
            assert(false);
            Err(raise(PyErrorClass::ConfigError, "".as_bytes()))
        },
    }
}

/// Exactly one authentication method is accepted, and the choice is that
/// method: an API key alone selects that key, a complete email/password
/// pair alone selects that pair, a handle alone selects that handle; no
/// method, two methods, or half a pair raise `ConfigError`.
pub proof fn lemma_credentials_choose_the_one_method<C>(
    credentials: Option<C>,
    api_key: Option<String>,
    email: Option<String>,
    password: Option<String>,
)
    ensures
        (api_key is Some && email is None && password is None && credentials is None)
            ==> spec_resolve_credentials(credentials, api_key, email, password)
            == Ok::<CredentialChoice<C>, Seq<u8>>(CredentialChoice::ApiKey(api_key->0)),
        (api_key is None && email is Some && password is Some && credentials is None)
            ==> spec_resolve_credentials(credentials, api_key, email, password)
            == Ok::<CredentialChoice<C>, Seq<u8>>(CredentialChoice::EmailPassword { email: email->0, password: password->0 }),
        (api_key is None && email is None && password is None && credentials is Some)
            ==> spec_resolve_credentials(credentials, api_key, email, password)
            == Ok::<CredentialChoice<C>, Seq<u8>>(CredentialChoice::Handle(credentials->0)),
        spec_resolve_credentials(credentials, api_key, email, password) is Ok ==> {
            &&& !(api_key is Some && credentials is Some)
            &&& !(api_key is Some && (email is Some || password is Some))
            &&& !(credentials is Some && (email is Some || password is Some))
            &&& (email is Some) == (password is Some)
        },
        (api_key is None && email is None && password is None && credentials is None)
            ==> spec_resolve_credentials(credentials, api_key, email, password)
            == Err::<CredentialChoice<C>, Seq<u8>>(no_auth_message()),
{
}

// ── environment selectors ───────────────────────────────────────────────

/// An environment selector argument: the text the caller passed and the
/// environment the SDK's parser read from it (`None` when it names none).
pub struct EnvSelector<E> {
    pub raw: String,
    pub parsed: Option<E>,
}

pub open spec fn market_data_type_message(raw: Seq<char>) -> Seq<u8> {
    utf8("market_data_type must be \"PROD\" or \"STAGE\" (case-insensitive); got ")
        + vstd::utf8::encode_utf8(debug_quoted(raw))
}

pub open spec fn streaming_type_message(raw: Seq<char>) -> Seq<u8> {
    utf8("streaming_type must be \"PROD\" or \"DEV\" (case-insensitive); got ")
        + vstd::utf8::encode_utf8(debug_quoted(raw))
}

/// Apply the optional market-data and streaming selectors: an absent
/// selector keeps that channel as it is, a selector that names no
/// environment is a rejected argument and raises `InvalidParameterError`
/// (a `ValueError`) naming the valid set and quoting what was passed (the
/// market-data selector is checked first).
pub fn apply_env_overrides<M, S>(
    market_data_type: Option<EnvSelector<M>>,
    streaming_type: Option<EnvSelector<S>>,
) -> (r: Result<(Option<M>, Option<S>), PyRaise>)
    ensures
        match (market_data_type, streaming_type) {
            (Some(m), _) if m.parsed is None =>
                r matches Err(e) && raises(e, PyErrorClass::InvalidParameterError, market_data_type_message(m.raw@)),
            (_, Some(s)) if s.parsed is None && !(market_data_type matches Some(m) && m.parsed is None) =>
                r matches Err(e) && raises(e, PyErrorClass::InvalidParameterError, streaming_type_message(s.raw@)),
            _ => r matches Ok((mo, so)) && mo == (match market_data_type {
                Some(m) => m.parsed,
                None => None,
            }) && so == (match streaming_type {
                Some(s) => s.parsed,
                None => None,
            }),
        },
{
    let market = match market_data_type {
        None => None,
        Some(m) => match m.parsed {
            Some(env) => Some(env),
            None => {
                let quoted = debug_format(m.raw.as_str());
                let msg = concat(
                    "market_data_type must be \"PROD\" or \"STAGE\" (case-insensitive); got ".as_bytes(),
                    quoted.as_str().as_bytes(),
                );
                return Err(PyRaise { class: PyErrorClass::InvalidParameterError, message: msg });
            },
        },
    };
    let streaming = match streaming_type {
        None => None,
        Some(s) => match s.parsed {
            Some(env) => Some(env),
            None => {
                let quoted = debug_format(s.raw.as_str());
                let msg = concat(
                    "streaming_type must be \"PROD\" or \"DEV\" (case-insensitive); got ".as_bytes(),
                    quoted.as_str().as_bytes(),
                );
                return Err(PyRaise { class: PyErrorClass::InvalidParameterError, message: msg });
            },
        },
    };
    Ok((market, streaming))
}

// ── reconnect policy ────────────────────────────────────────────────────

/// The reconnect policy families.
#[derive(Clone, Copy, Debug, PartialEq, Eq, Structural)]
pub enum ReconnectPolicyKind {
    /// Automatic reconnect with the default attempt budgets.
    Auto,
    /// No automatic reconnect.
    Manual,
    /// Delays decided by a user callable.
    Custom,
}

pub open spec fn unknown_policy_message(lowered: Seq<char>) -> Seq<u8> {
    utf8("unknown reconnect_policy: ") + vstd::utf8::encode_utf8(debug_quoted(lowered))
        + utf8(" (expected \"auto\" or \"manual\")")
}

/// The policy a name selects (compared after Unicode lower-casing).
pub open spec fn spec_parse_policy(lowered: Seq<char>) -> Option<ReconnectPolicyKind> {
    if lowered == "manual"@ {
        Some(ReconnectPolicyKind::Manual)
    } else if lowered == "auto"@ {
        Some(ReconnectPolicyKind::Auto)
    } else {
        None
    }
}

/// The `reconnect_policy` setter: `"manual"` or `"auto"` in any case; any
/// other name raises `InvalidParameterError` quoting the lower-cased name.
pub fn parse_reconnect_policy(policy: &str) -> (r: Result<ReconnectPolicyKind, PyRaise>)
    ensures
        match spec_parse_policy(unicode_lowercase(policy@)) {
            Some(k) => r matches Ok(k2) && k2 == k,
            None => r matches Err(e) && raises(
                e,
                PyErrorClass::InvalidParameterError,
                unknown_policy_message(unicode_lowercase(policy@)),
            ),
        },
{
    let lowered = to_lowercase(policy);
    let l = lowered.as_str();
    let b = l.as_bytes();
    if crate::text::const_bytes_eq(b, "manual".as_bytes()) {
        proof { crate::subscription::lemma_same_bytes_same_text(l, "manual"); }
        Ok(ReconnectPolicyKind::Manual)
    } else if crate::text::const_bytes_eq(b, "auto".as_bytes()) {
        proof { crate::subscription::lemma_same_bytes_same_text(l, "auto"); }
        Ok(ReconnectPolicyKind::Auto)
    } else {
        proof {
            crate::subscription::lemma_same_text_same_bytes(l, "manual");
            crate::subscription::lemma_same_text_same_bytes(l, "auto");
        }
        let quoted = debug_format(l);
        let mut msg = concat("unknown reconnect_policy: ".as_bytes(), quoted.as_str().as_bytes());
        push_bytes(&mut msg, " (expected \"auto\" or \"manual\")".as_bytes());
        Err(PyRaise { class: PyErrorClass::InvalidParameterError, message: msg })
    }
}

pub open spec fn spec_policy_label(k: ReconnectPolicyKind) -> Seq<char> {
    match k {
        ReconnectPolicyKind::Auto => "auto"@,
        ReconnectPolicyKind::Manual => "manual"@,
        ReconnectPolicyKind::Custom => "custom"@,
    }
}

/// The `reconnect_policy` getter's label.
pub fn reconnect_policy_label(k: ReconnectPolicyKind) -> (s: &'static str)
    ensures
        s@ == spec_policy_label(k),
{
    match k {
        ReconnectPolicyKind::Auto => "auto",
        ReconnectPolicyKind::Manual => "manual",
        ReconnectPolicyKind::Custom => "custom",
    }
}

/// The getter's label round-trips through the setter: the automatic policy
/// reads `"auto"` and the manual one `"manual"`, and setting either label
/// gives back the policy it was read from; the custom policy reads
/// `"custom"`, which the setter does not accept.
pub proof fn lemma_policy_label_round_trips(k: ReconnectPolicyKind)
    ensures
        k != ReconnectPolicyKind::Custom ==> spec_parse_policy(spec_policy_label(k)) == Some(k),
        spec_policy_label(ReconnectPolicyKind::Auto) == "auto"@,
        spec_policy_label(ReconnectPolicyKind::Manual) == "manual"@,
        spec_policy_label(ReconnectPolicyKind::Custom) == "custom"@,
        spec_parse_policy("auto"@) == Some(ReconnectPolicyKind::Auto),
        spec_parse_policy("manual"@) == Some(ReconnectPolicyKind::Manual),
        spec_parse_policy(spec_policy_label(ReconnectPolicyKind::Custom)) is None,
{
    reveal_strlit("auto");
    reveal_strlit("manual");
    reveal_strlit("custom");
    assert("auto"@.len() != "manual"@.len());
    assert("custom"@.len() != "auto"@.len());
    assert("custom"@[0] != "manual"@[0]);
}

/// The `reconnect_callback` setter: `None` restores the automatic policy,
/// a callable installs a custom policy, anything else raises
/// `InvalidParameterError` (so the failure is not deferred to the I/O
/// thread, where it could not be raised).
pub fn reconnect_callback_policy(present: bool, callable: bool) -> (r: Result<ReconnectPolicyKind, PyRaise>)
    ensures
        !present ==> r == Ok::<ReconnectPolicyKind, PyRaise>(ReconnectPolicyKind::Auto),
        present && callable ==> r == Ok::<ReconnectPolicyKind, PyRaise>(ReconnectPolicyKind::Custom),
        present && !callable ==> (r matches Err(e) && raises(
            e,
            PyErrorClass::InvalidParameterError,
            utf8("reconnect_callback must be callable"),
        )),
{
    if !present {
        Ok(ReconnectPolicyKind::Auto)
    } else if callable {
        Ok(ReconnectPolicyKind::Custom)
    } else {
        Err(raise(PyErrorClass::InvalidParameterError, "reconnect_callback must be callable".as_bytes()))
    }
}

/// What the user's reconnect callable returned.
#[derive(Clone, Copy, Debug, PartialEq, Eq, Structural)]
pub enum CallbackReply {
    /// `None`: stop reconnecting.
    NoneReturned,
    /// A delay in milliseconds.
    Millis(u64),
    /// A value that is not a non-negative integer (reported as unraisable).
    NotAnInteger,
    /// The callable raised (reported as unraisable).
    Raised,
}

/// The delay a custom policy waits before the next attempt, `None` to stop
/// reconnecting: only an integer reply yields a delay; `None`, a
/// non-integer and a raising callable all stop.
pub fn custom_reconnect_delay(reply: CallbackReply) -> (r: Option<u64>)
    ensures
        r == (match reply {
            CallbackReply::Millis(ms) => Some(ms),
            _ => None,
        }),
{
    match reply {
        CallbackReply::Millis(ms) => Some(ms),
        _ => None,
    }
}

// ── delivery-handler marker ─────────────────────────────────────────────

/// How many streaming delivery handlers the current thread is inside.
pub struct DeliveryDepth {
    pub depth: u32,
}

impl DeliveryDepth {
    /// A thread outside any handler.
    pub fn new() -> (d: DeliveryDepth)
        ensures
            d.depth == 0,
    {
        DeliveryDepth { depth: 0 }
    }

    /// A handler starts on this thread.
    pub fn enter(&mut self)
        requires
            old(self).depth < u32::MAX,
        ensures
            final(self).depth == old(self).depth + 1,
    {
        self.depth = self.depth + 1;
    }

    /// A handler ends on this thread; never goes below zero.
    pub fn exit(&mut self)
        ensures
            final(self).depth == (if old(self).depth == 0 { 0 } else { old(self).depth - 1 }),
    {
        self.depth = self.depth.saturating_sub(1);
    }

    /// Whether the thread is inside a delivery handler.
    pub fn in_delivery_handler_thread(&self) -> (r: bool)
        ensures
            r == (self.depth != 0),
    {
        self.depth != 0
    }
}

/// The depth after `n` enters.
pub open spec fn entered(depth: nat, n: nat) -> nat {
    depth + n
}

/// The depth after `n` exits.
pub open spec fn exited(depth: nat, n: nat) -> nat {
    if depth >= n { (depth - n) as nat } else { 0 }
}

/// Handlers nest: closing an inner handler does not clear the outer one's
/// mark, and closing as many handlers as were opened restores the depth
/// the thread started with (in particular, a thread outside any handler
/// is outside again).
pub proof fn lemma_nested_handlers(depth: nat, inner: nat)
    ensures
        exited(entered(entered(depth, 1), inner), inner) == depth + 1,
        exited(entered(depth, inner), inner) == depth,
        depth + 1 != 0,
{
}

} // verus!
