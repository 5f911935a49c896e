//! Constants and small types that several modules share.
//!
//! Times are readings of a clock that does not go back, in nanoseconds since some
//! start; durations are in nanoseconds too.

use vstd::prelude::*;

verus! {

/// A second.
pub const SECOND: u64 = 1_000_000_000;

/// A millisecond.
pub const MILLISECOND: u64 = 1_000_000;

/// How much of a file its head digest covers.
pub const HEAD_BYTES: u64 = 262_144;

/// How long a peer that left in the middle of a transfer is waited for.
pub const REJOIN_WINDOW: u64 = 120_000_000_000;

/// How often a stalled link is repaired before the transfer is given up.
pub const STALL_MAX_REPAIRS: u32 = 5;

/// The stream that carries a probe of a new path. No file ever arrives over it.
pub const VERIFY_PROBE_SID: u32 = 0x7FFF_FFFF;

/// The name of a fleet link that has not proved itself.
pub const FLEET_LINK_NAME: &'static str = "fleet: unverified";

/// How many consent requests may be pending.
pub const MAX_PENDING: usize = 100;

/// The time since `then`; none where `then` is yet to come.
pub open spec fn since(now: u64, then: u64) -> int {
    if now >= then {
        now - then
    } else {
        0
    }
}

/// The time since `then`; none where `then` is yet to come.
pub fn elapsed(now: u64, then: u64) -> (r: u64)
    ensures
        r == since(now, then),
{
    if now >= then {
        now - then
    } else {
        0
    }
}

/// The time `d` after `now`, as far as the clock goes.
pub open spec fn later(now: u64, d: u64) -> u64 {
    if now + d <= u64::MAX {
        (now + d) as u64
    } else {
        u64::MAX
    }
}

/// The time `d` after `now`, as far as the clock goes.
pub fn after(now: u64, d: u64) -> (r: u64)
    ensures
        r == later(now, d),
{
    if d <= u64::MAX - now {
        now + d
    } else {
        u64::MAX
    }
}

/// The low half of a number, which is what a wire number becomes as a stream number.
pub open spec fn low_half(n: u64) -> u32 {
    (n % 0x1_0000_0000) as u32
}

/// The low half of a number.
pub fn truncate(n: u64) -> (r: u32)
    ensures
        r == low_half(n),
{
    (n % 0x1_0000_0000) as u32
}

/// What is kept beside a partial file: the size, the digest of the head and the digest
/// of the whole that the sender offered.
pub struct PartMeta {
    pub size: u64,
    pub head: Option<String>,
    pub full: Option<String>,
}

/// The text of an optional text.
pub open spec fn view_of(s: Option<String>) -> Option<Seq<char>> {
    match s {
        Some(t) => Some(t@),
        None => None,
    }
}

/// The text of an optional text.
pub open spec fn view_of_str(s: Option<&str>) -> Option<Seq<char>> {
    match s {
        Some(t) => Some(t@),
        None => None,
    }
}

} // verus!
