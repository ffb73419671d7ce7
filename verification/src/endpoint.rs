use vstd::prelude::*;
use vstd::string::StringExecFns;

use crate::ENDPOINT_TOKEN_EXPIRY;
use crate::RECONNECT_AFTER;

verus! {

// ---------------------------------------------------------------------------
// The endpoint the channel is opened against: a base URL plus a time-limited
// signed token in a query parameter, re-derived on every reconnect cycle.
// Signing itself is the external token collaborator's; the claims and the
// URL are built here.
// ---------------------------------------------------------------------------

/// The claims of the endpoint token: when it was minted and when it lapses.
#[derive(Clone, Copy, PartialEq, Eq, Structural, Debug)]
pub struct BackendClaims {
    pub timestamp: u64,
    pub exp: u64,
}

/// The claims owed to an endpoint token minted at `now`.
pub open spec fn endpoint_claims_v(now: u64) -> BackendClaims {
    BackendClaims { timestamp: now, exp: (now + ENDPOINT_TOKEN_EXPIRY) as u64 }
}

/// Mints the claims of a fresh endpoint token: issued now, lapsing one
/// token lifetime later.
pub fn endpoint_claims(now: u64) -> (r: BackendClaims)
    requires
        now + ENDPOINT_TOKEN_EXPIRY <= u64::MAX,
    ensures
        r == endpoint_claims_v(now),
        r.timestamp == now,
        r.exp == now + ENDPOINT_TOKEN_EXPIRY,
{
    BackendClaims { timestamp: now, exp: now + ENDPOINT_TOKEN_EXPIRY }
}

/// The endpoint invariant: a token minted at any instant outlives the
/// interval until the next scheduled reconnection, so the channel is never
/// re-opened with a lapsed token.
pub proof fn lemma_endpoint_token_outlives_reconnect(now: u64)
    requires
        now + ENDPOINT_TOKEN_EXPIRY <= u64::MAX,
    ensures
        endpoint_claims_v(now).exp - endpoint_claims_v(now).timestamp > RECONNECT_AFTER,
{
}

/// Joins a base URL and a signed token into the endpoint URL.
pub fn endpoint_url(base: &str, token: &str) -> (r: String)
    ensures
        r@ == base@ + "?token="@ + token@,
{
    let mut out = String::from_str(base);
    out.append("?token=");
    out.append(token);
    proof {
        assert(out@ =~= base@ + "?token="@ + token@);
    }
    out
}

// ---------------------------------------------------------------------------
// The channel's lifecycle. The runtime owns one logical channel; these are
// the transitions its state may take. A fatal transport failure leaves the
// channel broken: nothing re-opens it but the scheduled reconnection.
// ---------------------------------------------------------------------------

/// The state of the one logical channel.
#[derive(Clone, Copy, PartialEq, Eq, Structural, Debug)]
pub enum ConnState {
    Disconnected,
    Connected,
    Reconnecting,
}

/// What happens to the channel.
#[derive(Clone, Copy, PartialEq, Eq, Structural, Debug)]
pub enum ConnEvent {
    /// The startup connect finished, well or badly.
    ConnectOk,
    ConnectFailed,
    /// A send or receive failed fatally.
    TransportFailed,
    /// The scheduled reconnection began tearing the channel down.
    ReconnectTick,
    /// The scheduled reconnection finished, well or badly.
    ReconnectOk,
    ReconnectFailed,
}

/// The channel's next state after an event.
pub open spec fn conn_step_v(s: ConnState, e: ConnEvent) -> ConnState {
    match (s, e) {
        (ConnState::Disconnected, ConnEvent::ConnectOk) => ConnState::Connected,
        (ConnState::Disconnected, ConnEvent::ConnectFailed) => ConnState::Disconnected,
        (ConnState::Connected, ConnEvent::TransportFailed) => ConnState::Disconnected,
        (_, ConnEvent::ReconnectTick) => ConnState::Reconnecting,
        (ConnState::Reconnecting, ConnEvent::ReconnectOk) => ConnState::Connected,
        (ConnState::Reconnecting, ConnEvent::ReconnectFailed) => ConnState::Disconnected,
        (s0, _) => s0,
    }
}

/// Advances the channel's state by one event.
pub fn conn_step(s: ConnState, e: ConnEvent) -> (r: ConnState)
    ensures
        r == conn_step_v(s, e),
{
    match (s, e) {
        (ConnState::Disconnected, ConnEvent::ConnectOk) => ConnState::Connected,
        (ConnState::Disconnected, ConnEvent::ConnectFailed) => ConnState::Disconnected,
        (ConnState::Connected, ConnEvent::TransportFailed) => ConnState::Disconnected,
        (_, ConnEvent::ReconnectTick) => ConnState::Reconnecting,
        (ConnState::Reconnecting, ConnEvent::ReconnectOk) => ConnState::Connected,
        (ConnState::Reconnecting, ConnEvent::ReconnectFailed) => ConnState::Disconnected,
        (s0, _) => s0,
    }
}

/// A broken channel is not retried on traffic: once disconnected after
/// startup, only the scheduled reconnection tick moves the state at all.
pub proof fn lemma_broken_channel_waits_for_tick(e: ConnEvent)
    requires
        e != ConnEvent::ReconnectTick,
        e != ConnEvent::ConnectOk,
    ensures
        conn_step_v(ConnState::Disconnected, e) == ConnState::Disconnected,
{
}

} // verus!
