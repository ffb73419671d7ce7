use vstd::prelude::*;

pub mod model;
pub mod codec;
pub mod decode;
pub mod endpoint;
pub mod flows;
pub mod laws;
pub mod wire_laws;

verus! {

/// Interval, in seconds, between scheduled reconnections of the database channel.
pub const RECONNECT_AFTER: u64 = 360;

/// Interval, in seconds, between heartbeat pings on the database channel.
pub const HEARTBEAT_INTERVAL: u64 = 30;

/// Lifetime, in seconds, of a bearer token issued at login (one year).
pub const USER_TOKEN_EXPIRY: u64 = 31536000;

/// Lifetime, in seconds, of the signed token embedded in the endpoint URL.
pub const ENDPOINT_TOKEN_EXPIRY: u64 = 3600;

} // verus!
