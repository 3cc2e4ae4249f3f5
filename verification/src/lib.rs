//! Request-authentication and dispatch pipeline for a slash-command webhook
//! service: an ed25519 signature gate with a clock-skew guard in front of an
//! interaction router, backed by an idempotent guild registry.

use vstd::prelude::*;

pub mod commands;
pub mod crypto;
pub mod dispatch;
pub mod gate;
pub mod guilds;
pub mod interactions;
pub mod repository;
pub mod timestamp;

verus! {

/// Seconds of clock skew tolerated by default between the timestamp a caller
/// claims and the receiver's wall clock.
pub const DEFAULT_CLOCK_SKEW_TOLERANCE_SECS: i64 = 300;

/// The view of an optional string as an optional character sequence.
pub open spec fn opt_str_view(o: Option<String>) -> Option<Seq<char>> {
    match o {
        Some(s) => Some(s@),
        None => None,
    }
}

} // verus!
