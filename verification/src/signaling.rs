//! Keeping a long-lived acceptor on its signaling server: noticing that the link is dead,
//! and dialing again with backoff.

use vstd::prelude::*;
use crate::shared_defs;
use crate::shared_defs::{elapsed, MILLISECOND};

verus! {

/// What is known of the signaling link.
pub struct Signaling {
    /// When the server was last heard.
    pub last: u64,
    /// Since when the link is down.
    pub down_since: Option<u64>,
    /// How often it was dialed in vain.
    pub attempt: u32,
    /// When it was last dialed; nothing where it may be dialed at once.
    pub last_try: Option<u64>,
    /// The silence was answered with a heartbeat.
    pub probed: bool,
}

/// What an event says of the signaling link.
#[derive(Clone, Copy, Debug, PartialEq, Eq, Structural)]
pub enum Heard {
    /// The link was closed.
    Down,
    /// The server was heard.
    Alive,
    /// Nothing.
    Other,
}

/// What to do about the signaling link.
#[derive(Clone, Copy, Debug, PartialEq, Eq, Structural)]
pub enum WatchStep {
    /// Nothing.
    Nothing,
    /// It was closed: say so and dial.
    Closed,
    /// It is silent: send a heartbeat.
    Probe,
    /// It has stayed silent: say so and dial.
    Silent { ms: u64 },
}

/// The silence in milliseconds.
pub open spec fn silent_ms(s: Signaling, now: u64) -> int {
    shared_defs::since(now, s.last) / (MILLISECOND as int)
}

/// A link on which the server was just heard.
pub open spec fn heard_now(s: Signaling, now: u64) -> Signaling {
    Signaling { last: now, down_since: None, probed: false, attempt: 0, ..s }
}

/// A link that is down from now on and may be dialed at once.
pub open spec fn down_now(s: Signaling, now: u64) -> Signaling {
    Signaling { down_since: Some(now), last_try: None, ..s }
}

/// What watching the link does. A close is believed at once. Silence of `silence`
/// milliseconds is answered with one heartbeat, and twice that much means that the link is
/// dead.
pub open spec fn watched(was: Signaling, heard: Heard, silence: u64, now: u64) -> (
    Signaling,
    WatchStep,
) {
    let s = if heard is Alive {
        heard_now(was, now)
    } else {
        was
    };
    let quiet = silent_ms(s, now);
    let twice = if 2 * silence <= u64::MAX {
        2 * silence
    } else {
        u64::MAX as int
    };
    if s.down_since is Some {
        (s, WatchStep::Nothing)
    } else if heard is Down {
        (down_now(s, now), WatchStep::Closed)
    } else if quiet >= silence && !s.probed {
        (Signaling { probed: true, ..s }, WatchStep::Probe)
    } else if quiet >= silence && quiet >= twice {
        (down_now(s, now), WatchStep::Silent { ms: quiet as u64 })
    } else {
        (s, WatchStep::Nothing)
    }
}

/// The delay before the next dial, without jitter: it doubles from half a second up to
/// eight.
pub open spec fn base_ms(attempt: u32) -> int {
    if attempt == 0 {
        500
    } else if attempt == 1 {
        1000
    } else if attempt == 2 {
        2000
    } else if attempt == 3 {
        4000
    } else {
        8000
    }
}

/// The delay before the next dial. The time the link has been down spreads it over a
/// quarter up and down.
pub open spec fn backoff_ms(attempt: u32, down_for: int) -> int {
    let base = base_ms(attempt);
    let d = base + down_for % (base / 2 + 1) - base / 4;
    if d > 100 {
        d
    } else {
        100
    }
}

/// The delay before the next dial stays within a quarter of its base, and so between
/// three eighths of a second and ten seconds.
pub proof fn backoff_is_bounded(attempt: u32, down_for: int)
    requires
        0 <= down_for,
    ensures
        3 * base_ms(attempt) <= 4 * backoff_ms(attempt, down_for) <= 5 * base_ms(attempt),
        375 <= backoff_ms(attempt, down_for) <= 10_000,
        base_ms(attempt) <= base_ms((if attempt < u32::MAX {
            attempt + 1
        } else {
            attempt as int
        }) as u32),
{
    let base = base_ms(attempt);
    let m = base / 2 + 1;
    assert(0 <= down_for % m < m) by (nonlinear_arith)
        requires
            m > 0,
            0 <= down_for,
    ;
}

impl Signaling {
    /// A link that has just come up.
    pub fn new(now: u64) -> (r: Signaling)
        ensures
            r == (Signaling {
                last: now,
                down_since: None,
                attempt: 0,
                last_try: Some(now),
                probed: false,
            }),
    {
        Signaling { last: now, down_since: None, attempt: 0, last_try: Some(now), probed: false }
    }

    /// Watch the link.
    pub fn watch(&mut self, heard: Heard, silence: u64, now: u64) -> (r: WatchStep)
        ensures
            watched(*old(self), heard, silence, now) == (*final(self), r),
    {
        match heard {
            Heard::Alive => {
                self.last = now;
                self.down_since = None;
                self.probed = false;
                self.attempt = 0;
            },
            _ => {},
        }
        if self.down_since.is_some() {
            return WatchStep::Nothing;
        }
        let down: bool = match heard {
            Heard::Down => true,
            _ => false,
        };
        if down {
            self.down_since = Some(now);
            self.last_try = None;
            return WatchStep::Closed;
        }
        let quiet: u64 = elapsed(now, self.last) / MILLISECOND;
        if quiet >= silence {
            if !self.probed {
                self.probed = true;
                return WatchStep::Probe;
            }
            let twice: u64 = if silence <= u64::MAX / 2 {
                silence * 2
            } else {
                u64::MAX
            };
            if quiet >= twice {
                self.down_since = Some(now);
                self.last_try = None;
                return WatchStep::Silent { ms: quiet };
            }
        }
        WatchStep::Nothing
    }

    /// Whether to dial now: the link is down, and the delay since the last dial is over.
    pub fn redial(&mut self, now: u64) -> (r: bool)
        ensures
            r == (old(self).down_since is Some && (old(self).last_try is None || shared_defs::since(
                now,
                old(self).last_try->0,
            ) >= backoff_ms(
                old(self).attempt,
                shared_defs::since(now, old(self).down_since->0),
            ) * MILLISECOND)),
            !r ==> *final(self) == *old(self),
            r ==> *final(self) == (Signaling {
                last_try: Some(now),
                attempt: if old(self).attempt < u32::MAX {
                    (old(self).attempt + 1) as u32
                } else {
                    u32::MAX
                },
                ..*old(self)
            }),
    {
        let down_at: u64 = match self.down_since {
            Some(t) => t,
            None => return false,
        };
        let base: u64 = match self.attempt {
            0 => 500,
            1 => 1000,
            2 => 2000,
            3 => 4000,
            _ => 8000,
        };
        let spread: u64 = elapsed(now, down_at) % (base / 2 + 1);
        let sum: u64 = base + spread - base / 4;
        let backoff: u64 = if sum > 100 {
            sum
        } else {
            100
        };
        let due: bool = match self.last_try {
            None => true,
            Some(t) => elapsed(now, t) >= backoff * MILLISECOND,
        };
        if due {
            self.last_try = Some(now);
            if self.attempt < u32::MAX {
                self.attempt = self.attempt + 1;
            }
        }
        due
    }

    /// A dial has succeeded. The count of attempts starts over only once the server is
    /// heard.
    pub fn reconnected(&mut self, now: u64)
        ensures
            *final(self) == (Signaling {
                last: now,
                down_since: None,
                probed: false,
                ..*old(self)
            }),
    {
        self.last = now;
        self.down_since = None;
        self.probed = false;
    }
}

/// A link that died without a word is noticed: its silence is answered with a heartbeat
/// first, and where that brings nothing, the link is taken for dead.
pub proof fn dead_link_is_noticed(s: Signaling, silence: u64, first: u64, second: u64)
    requires
        s.down_since is None,
        !s.probed,
        first <= second,
        silent_ms(s, first) >= silence,
        silent_ms(s, second) >= 2 * silence,
    ensures
        watched(s, Heard::Other, silence, first).1 is Probe,
        watched(watched(s, Heard::Other, silence, first).0, Heard::Other, silence, second).1
            is Silent,
        watched(
            watched(s, Heard::Other, silence, first).0,
            Heard::Other,
            silence,
            second,
        ).0.down_since == Some(second),
{
}

/// A link on which the server is heard is never taken for dead, however long it was silent
/// before, unless silence counts from the start.
pub proof fn heard_link_is_alive(s: Signaling, silence: u64, now: u64)
    requires
        silence > 0,
    ensures
        watched(s, Heard::Alive, silence, now).1 is Nothing,
        watched(s, Heard::Alive, silence, now).0.down_since is None,
        watched(s, Heard::Alive, silence, now).0.attempt == 0,
{
}

} // verus!
