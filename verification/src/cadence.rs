//! What a daemon does every so often.

use vstd::prelude::*;
use crate::shared_defs;
use crate::shared_defs::elapsed;

verus! {

/// Tell the service manager that we are alive.
pub const WATCHDOG_EVERY: u64 = 5_000_000_000;

/// Drop links whose transport has died.
pub const LINK_HEALTH_EVERY: u64 = 8_000_000_000;

/// Note which devices are linked.
pub const LIVENESS_EVERY: u64 = 8_000_000_000;

/// Mark devices that have been away too long.
pub const SWEEP_EVERY: u64 = 30_000_000_000;

/// Announce our tunnel key.
pub const TUNNEL_EVERY: u64 = 10_000_000_000;

/// Look over the installed routes.
pub const ROUTES_EVERY: u64 = 15_000_000_000;

/// Ask for a new certificate.
pub const RENEWAL_EVERY: u64 = 30_000_000_000;

/// Push the roster.
pub const ROSTER_EVERY: u64 = 5_000_000_000;

/// Look over the mounts.
pub const MOUNTS_EVERY: u64 = 30_000_000_000;

/// Keep warm links up.
pub const WARM_EVERY: u64 = 10_000_000_000;

/// Look for new devices.
pub const DEVICES_EVERY: u64 = 2_000_000_000;

/// Tell each peer where its transfers stand.
pub const STATE_EVERY: u64 = 10_000_000_000;

/// When each thing was last done.
#[derive(Clone, Copy, Debug, PartialEq, Eq, Structural)]
pub struct Cadence {
    pub watchdog: u64,
    pub link_health: u64,
    pub liveness: u64,
    pub sweep: u64,
    pub tunnel: u64,
    pub routes: u64,
    pub renewal: u64,
    pub roster: u64,
    pub mounts: u64,
    pub warm: u64,
    pub devices: u64,
    pub state: u64,
}

/// What is to be done now.
#[derive(Clone, Copy, Debug, PartialEq, Eq, Structural)]
pub struct Due {
    pub watchdog: bool,
    pub link_health: bool,
    pub liveness: bool,
    pub sweep: bool,
    pub tunnel: bool,
    pub routes: bool,
    pub renewal: bool,
    pub roster: bool,
    pub mounts: bool,
    pub warm: bool,
    pub devices: bool,
    pub state: bool,
}

/// Something is due: it is `on`, and was last done at least `every` ago.
pub open spec fn is_due(on: bool, last: u64, now: u64, every: u64) -> bool {
    on && shared_defs::since(now, last) >= every
}

/// When something was last done, once it is done if due.
pub open spec fn done_at(due: bool, last: u64, now: u64) -> u64 {
    if due {
        now
    } else {
        last
    }
}

fn due(on: bool, last: u64, now: u64, every: u64) -> (r: bool)
    ensures
        r == is_due(on, last, now, every),
{
    on && elapsed(now, last) >= every
}

fn mark(due: bool, last: u64, now: u64) -> (r: u64)
    ensures
        r == done_at(due, last, now),
{
    if due {
        now
    } else {
        last
    }
}

impl Cadence {
    /// Everything was just done.
    pub fn new(now: u64) -> (r: Cadence)
        ensures
            r == (Cadence {
                watchdog: now,
                link_health: now,
                liveness: now,
                sweep: now,
                tunnel: now,
                routes: now,
                renewal: now,
                roster: now,
                mounts: now,
                warm: now,
                devices: now,
                state: now,
            }),
    {
        Cadence {
            watchdog: now,
            link_health: now,
            liveness: now,
            sweep: now,
            tunnel: now,
            routes: now,
            renewal: now,
            roster: now,
            mounts: now,
            warm: now,
            devices: now,
            state: now,
        }
    }

    /// What is due at `now`.
    pub open spec fn due_at(self, daemon: bool, tunnel_on: bool, now: u64) -> Due {
        Due {
            watchdog: is_due(daemon, self.watchdog, now, WATCHDOG_EVERY),
            link_health: is_due(daemon, self.link_health, now, LINK_HEALTH_EVERY),
            liveness: is_due(daemon, self.liveness, now, LIVENESS_EVERY),
            sweep: is_due(daemon, self.sweep, now, SWEEP_EVERY),
            tunnel: is_due(daemon && tunnel_on, self.tunnel, now, TUNNEL_EVERY),
            routes: is_due(daemon, self.routes, now, ROUTES_EVERY),
            renewal: is_due(daemon, self.renewal, now, RENEWAL_EVERY),
            roster: is_due(daemon, self.roster, now, ROSTER_EVERY),
            mounts: is_due(daemon, self.mounts, now, MOUNTS_EVERY),
            warm: is_due(daemon, self.warm, now, WARM_EVERY),
            devices: is_due(daemon, self.devices, now, DEVICES_EVERY),
            state: is_due(true, self.state, now, STATE_EVERY),
        }
    }

    /// The cadence after what is due was done.
    pub open spec fn after_doing(self, d: Due, now: u64) -> Cadence {
        Cadence {
            watchdog: done_at(d.watchdog, self.watchdog, now),
            link_health: done_at(d.link_health, self.link_health, now),
            liveness: done_at(d.liveness, self.liveness, now),
            sweep: done_at(d.sweep, self.sweep, now),
            tunnel: done_at(d.tunnel, self.tunnel, now),
            routes: done_at(d.routes, self.routes, now),
            renewal: done_at(d.renewal, self.renewal, now),
            roster: done_at(d.roster, self.roster, now),
            mounts: done_at(d.mounts, self.mounts, now),
            warm: done_at(d.warm, self.warm, now),
            devices: done_at(d.devices, self.devices, now),
            state: done_at(d.state, self.state, now),
        }
    }

    /// What is to be done now; it counts as done. All of it but the state pings is a
    /// daemon's alone, and the tunnel key is announced only where tunnels are on.
    pub fn tick(&mut self, daemon: bool, tunnel_on: bool, now: u64) -> (r: Due)
        ensures
            r == old(self).due_at(daemon, tunnel_on, now),
            *final(self) == old(self).after_doing(r, now),
    {
        let r = Due {
            watchdog: due(daemon, self.watchdog, now, WATCHDOG_EVERY),
            link_health: due(daemon, self.link_health, now, LINK_HEALTH_EVERY),
            liveness: due(daemon, self.liveness, now, LIVENESS_EVERY),
            sweep: due(daemon, self.sweep, now, SWEEP_EVERY),
            tunnel: due(daemon && tunnel_on, self.tunnel, now, TUNNEL_EVERY),
            routes: due(daemon, self.routes, now, ROUTES_EVERY),
            renewal: due(daemon, self.renewal, now, RENEWAL_EVERY),
            roster: due(daemon, self.roster, now, ROSTER_EVERY),
            mounts: due(daemon, self.mounts, now, MOUNTS_EVERY),
            warm: due(daemon, self.warm, now, WARM_EVERY),
            devices: due(daemon, self.devices, now, DEVICES_EVERY),
            state: due(true, self.state, now, STATE_EVERY),
        };
        *self = Cadence {
            watchdog: mark(r.watchdog, self.watchdog, now),
            link_health: mark(r.link_health, self.link_health, now),
            liveness: mark(r.liveness, self.liveness, now),
            sweep: mark(r.sweep, self.sweep, now),
            tunnel: mark(r.tunnel, self.tunnel, now),
            routes: mark(r.routes, self.routes, now),
            renewal: mark(r.renewal, self.renewal, now),
            roster: mark(r.roster, self.roster, now),
            mounts: mark(r.mounts, self.mounts, now),
            warm: mark(r.warm, self.warm, now),
            devices: mark(r.devices, self.devices, now),
            state: mark(r.state, self.state, now),
        };
        r
    }

    /// Keep warm links up at the next tick, rather than when they are due.
    pub fn pull_warm(&mut self, now: u64)
        ensures
            *final(self) == (Cadence {
                warm: if now >= WARM_EVERY {
                    (now - WARM_EVERY) as u64
                } else {
                    now
                },
                ..*old(self)
            }),
    {
        self.warm = if now >= WARM_EVERY {
            now - WARM_EVERY
        } else {
            now
        };
    }
}

/// Two things that a daemon does are at least their interval apart.
pub proof fn no_sooner_than_its_interval(on: bool, last: u64, first: u64, second: u64, every: u64)
    requires
        is_due(on, last, first, every),
        is_due(on, done_at(true, last, first), second, every),
        every > 0,
    ensures
        second >= first + every,
{
}

} // verus!
