//! The clock: what is done how often, and when a silent server is given up and dialled again.

use vstd::prelude::*;
use crate::cadence::{Cadence, Due};
use crate::signaling::{Heard, Signaling, WatchStep};

verus! {

/// A daemon does each of its chores as often as it is meant to be done, and counts from when it did;
/// without a daemon only the state is told, every ten seconds.
pub proof fn each_chore_has_its_time(c: &mut Cadence, daemon: bool, tunnel: bool, now: u64, r: Due)
    requires
        call_ensures(Cadence::tick, (c, daemon, tunnel, now), r),
    ensures
        daemon && now - old(c).watchdog >= 5_000_000_000 ==> r.watchdog && final(c).watchdog == now,
        !daemon || now - old(c).watchdog < 5_000_000_000 ==> !r.watchdog && final(c).watchdog == old(c).watchdog,
        daemon && now - old(c).link_health >= 8_000_000_000 ==> r.link_health && final(c).link_health == now,
        !daemon || now - old(c).link_health < 8_000_000_000 ==> !r.link_health && final(c).link_health == old(c).link_health,
        daemon && now - old(c).liveness >= 8_000_000_000 ==> r.liveness && final(c).liveness == now,
        !daemon || now - old(c).liveness < 8_000_000_000 ==> !r.liveness && final(c).liveness == old(c).liveness,
        daemon && now - old(c).sweep >= 30_000_000_000 ==> r.sweep && final(c).sweep == now,
        !daemon || now - old(c).sweep < 30_000_000_000 ==> !r.sweep && final(c).sweep == old(c).sweep,
        daemon && now - old(c).routes >= 15_000_000_000 ==> r.routes && final(c).routes == now,
        !daemon || now - old(c).routes < 15_000_000_000 ==> !r.routes && final(c).routes == old(c).routes,
        daemon && now - old(c).renewal >= 30_000_000_000 ==> r.renewal && final(c).renewal == now,
        !daemon || now - old(c).renewal < 30_000_000_000 ==> !r.renewal && final(c).renewal == old(c).renewal,
        daemon && now - old(c).roster >= 5_000_000_000 ==> r.roster && final(c).roster == now,
        !daemon || now - old(c).roster < 5_000_000_000 ==> !r.roster && final(c).roster == old(c).roster,
        daemon && now - old(c).mounts >= 30_000_000_000 ==> r.mounts && final(c).mounts == now,
        !daemon || now - old(c).mounts < 30_000_000_000 ==> !r.mounts && final(c).mounts == old(c).mounts,
        daemon && now - old(c).warm >= 10_000_000_000 ==> r.warm && final(c).warm == now,
        !daemon || now - old(c).warm < 10_000_000_000 ==> !r.warm && final(c).warm == old(c).warm,
        daemon && now - old(c).devices >= 2_000_000_000 ==> r.devices && final(c).devices == now,
        !daemon || now - old(c).devices < 2_000_000_000 ==> !r.devices && final(c).devices == old(c).devices,
        daemon && tunnel && now - old(c).tunnel >= 10_000_000_000 ==> r.tunnel && final(c).tunnel == now,
        !daemon || !tunnel || now - old(c).tunnel < 10_000_000_000 ==> !r.tunnel && final(c).tunnel == old(
            c,
        ).tunnel,
        now - old(c).state >= 10_000_000_000 ==> r.state && final(c).state == now,
        now - old(c).state < 10_000_000_000 ==> !r.state && final(c).state == old(c).state,
{
}

/// Every chore is counted from the start.
pub proof fn every_chore_is_counted_from_the_start(now: u64, r: Cadence)
    requires
        call_ensures(Cadence::new, (now,), r),
    ensures
        r.watchdog == now && r.link_health == now && r.liveness == now && r.sweep == now && r.tunnel
            == now && r.routes == now && r.renewal == now && r.roster == now && r.mounts == now && r.warm
            == now && r.devices == now && r.state == now,
{
}

/// The warm links can be called for at once, without touching the other chores.
pub proof fn warm_links_can_be_called_for(c: &mut Cadence, d: &mut Cadence, tunnel: bool, now: u64, r: Due)
    requires
        call_ensures(Cadence::pull_warm, (c, now), ()),
        *old(d) == *final(c),
        call_ensures(Cadence::tick, (d, true, tunnel, now), r),
    ensures
        now >= 10_000_000_000 ==> r.warm,
        *final(c) == (Cadence { warm: final(c).warm, ..*old(c) }),
{
}

/// The server is heard at first.
pub proof fn the_server_is_heard_at_first(now: u64, r: Signaling)
    requires
        call_ensures(Signaling::new, (now,), r),
    ensures
        r.last == now,
        r.down_since is None,
        r.attempt == 0,
        !r.probed,
        r.last_try == Some(now),
{
}

/// A word of the server ends every doubt: it is up, and what was tried before does not count.
pub proof fn a_word_ends_every_doubt(s: &mut Signaling, silence: u64, now: u64, r: WatchStep)
    requires
        call_ensures(Signaling::watch, (s, Heard::Alive, silence, now), r),
        silence > 0,
    ensures
        r is Nothing,
        final(s).last == now,
        final(s).down_since is None,
        final(s).attempt == 0,
        !final(s).probed,
{
    assert(0int / 1_000_000 == 0);
}

/// A connection that closed is down from then on, and is said to be once.
pub proof fn a_closed_connection_is_down(s: &mut Signaling, silence: u64, now: u64, r: WatchStep)
    requires
        call_ensures(Signaling::watch, (s, Heard::Down, silence, now), r),
    ensures
        old(s).down_since is None ==> r is Closed && final(s).down_since == Some(now) && final(s).last_try is None,
        old(s).down_since is Some ==> r is Nothing && *final(s) == *old(s),
{
}

/// A silent server is probed after the silence, once, and given up after twice of it; before that
/// nothing is done.
pub proof fn a_silent_server_is_probed_and_given_up(s: &mut Signaling, silence: u64, now: u64, ms: u64, r: WatchStep)
    requires
        call_ensures(Signaling::watch, (s, Heard::Other, silence, now), r),
        old(s).last <= now,
        ms as int == (now - old(s).last) / 1_000_000,
        2 * silence <= u64::MAX,
    ensures
        old(s).down_since is Some ==> r is Nothing && *final(s) == *old(s),
        old(s).down_since is None && ms < silence ==> r is Nothing && *final(s) == *old(s),
        old(s).down_since is None && ms >= silence && !old(s).probed ==> r is Probe && final(s).probed
            && final(s).down_since is None && final(s).last == old(s).last,
        old(s).down_since is None && ms >= silence && old(s).probed && ms < 2 * silence ==> r is Nothing
            && *final(s) == *old(s),
        old(s).down_since is None && silence > 0 && old(s).probed && ms >= 2 * silence ==> r == (
        WatchStep::Silent { ms }) && final(s).down_since == Some(now) && final(s).last_try is None,
{
}

/// A server that is down is dialled at once, and then again after a while that doubles from half a
/// second up to eight, give or take a quarter; one that is up is not.
pub proof fn a_lost_server_is_dialled_again(s: &mut Signaling, now: u64, r: bool)
    requires
        call_ensures(Signaling::redial, (s, now), r),
    ensures
        old(s).down_since is None ==> !r,
        old(s).down_since is Some && old(s).last_try is None ==> r,
        r ==> final(s).last_try == Some(now) && (old(s).attempt < u32::MAX ==> final(s).attempt == old(
            s,
        ).attempt + 1) && final(s).down_since == old(s).down_since,
        !r ==> *final(s) == *old(s),
        (old(s).down_since is Some && (old(s).last_try matches Some(t) && t <= now)) ==> {
            let waited = now - old(s).last_try->0;
            &&& old(s).attempt == 0 && waited < 375_000_000 ==> !r
            &&& old(s).attempt == 0 && waited >= 626_000_000 ==> r
            &&& old(s).attempt == 1 && waited < 750_000_000 ==> !r
            &&& old(s).attempt == 1 && waited >= 1_251_000_000 ==> r
            &&& old(s).attempt == 2 && waited < 1_500_000_000 ==> !r
            &&& old(s).attempt == 2 && waited >= 2_501_000_000 ==> r
            &&& old(s).attempt == 3 && waited < 3_000_000_000 ==> !r
            &&& old(s).attempt == 3 && waited >= 5_001_000_000 ==> r
            &&& old(s).attempt > 3 && waited < 6_000_000_000 ==> !r
            &&& old(s).attempt > 3 && waited >= 10_001_000_000 ==> r
        },
{
}

/// A connection that came back is up, and how often it was tried is remembered until the server
/// speaks.
pub proof fn a_connection_came_back(s: &mut Signaling, now: u64)
    requires
        call_ensures(Signaling::reconnected, (s, now), ()),
    ensures
        final(s).last == now,
        final(s).down_since is None,
        !final(s).probed,
        final(s).attempt == old(s).attempt,
        final(s).last_try == old(s).last_try,
{
}

/// The while before the next dial is half a second, doubled with each try up to eight seconds, less a
/// quarter, and more by how long the server has been down, up to a half.
pub proof fn how_long_before_the_next_dial(s: &mut Signaling, now: u64, r: bool, down: int, waited: int)
    requires
        call_ensures(Signaling::redial, (s, now), r),
        old(s).down_since is Some,
        old(s).last_try is Some,
        old(s).down_since->0 <= now,
        old(s).last_try->0 <= now,
        down == now - old(s).down_since->0,
        waited == now - old(s).last_try->0,
    ensures
        old(s).attempt == 0 ==> (r <==> waited >= (375 + down % 251) * 1_000_000),
        old(s).attempt == 1 ==> (r <==> waited >= (750 + down % 501) * 1_000_000),
        old(s).attempt == 2 ==> (r <==> waited >= (1500 + down % 1001) * 1_000_000),
        old(s).attempt == 3 ==> (r <==> waited >= (3000 + down % 2001) * 1_000_000),
        old(s).attempt >= 4 ==> (r <==> waited >= (6000 + down % 4001) * 1_000_000),
{
}

} // verus!
