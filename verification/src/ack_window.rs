//! The wait for the receiver's word that everything arrived whole. It ends within bounded
//! time, and never in a success that was not confirmed.

use vstd::prelude::*;
use vstd::string::*;
use crate::shared_defs;
use crate::shared_defs::elapsed;
use crate::text;
use crate::text::{cat3, to_decimal};

verus! {

/// How long the first wait is, unless the operator says otherwise.
pub const ACK_WAIT: u64 = 15_000_000_000;

/// How long the second wait is, after the receiver was asked again.
pub const ACK_REPROBE: u64 = 5_000_000_000;

/// What to do where no word came in time.
#[derive(Clone, Copy, Debug, PartialEq, Eq, Structural)]
pub enum AckFallback {
    /// Ask the receiver again.
    Reprobe,
    /// Give the send up as unconfirmed.
    FailUnconfirmed,
}

/// What to do where no word came in time: ask once more over a link that is alive, and
/// otherwise give up.
pub fn decide_ack_fallback(link_alive: bool, reprobed: bool) -> (r: AckFallback)
    ensures
        r is Reprobe <==> link_alive && !reprobed,
{
    if link_alive && !reprobed {
        AckFallback::Reprobe
    } else {
        AckFallback::FailUnconfirmed
    }
}

/// How far the wait is.
#[derive(Clone, Copy, Debug, PartialEq, Eq, Structural)]
pub struct AckWindow {
    /// When everything had left this side for the first time.
    pub sent_all_at: Option<u64>,
    /// When the receiver was asked again.
    pub reprobed_at: Option<u64>,
}

/// Looking at the wait at `now`, while it runs, turns `a` into `b` and calls for `act`.
pub open spec fn steps_to(
    a: AckWindow,
    b: AckWindow,
    now: u64,
    wait: u64,
    link_alive: bool,
    act: Option<AckFallback>,
) -> bool {
    b == a.looked_at(now, wait, link_alive) && act == a.calls_for(now, wait, link_alive)
}

/// What to do now.
#[derive(Clone, Copy, Debug, PartialEq, Eq, Structural)]
pub struct AckStep {
    /// Push out what is still buffered.
    pub flush: bool,
    /// The wait is over for now: do this.
    pub act: Option<AckFallback>,
}

impl AckWindow {
    /// The receiver is asked again only after everything had left this side.
    pub open spec fn wf(self) -> bool {
        self.reprobed_at is Some ==> self.sent_all_at is Some
    }

    /// Before anything was sent.
    pub fn new() -> (r: AckWindow)
        ensures
            r.wf(),
            r.sent_all_at is None,
            r.reprobed_at is None,
    {
        AckWindow { sent_all_at: None, reprobed_at: None }
    }

    /// When the first wait began, if it began at the latest at `now`.
    pub open spec fn began(self, now: u64) -> u64 {
        match self.sent_all_at {
            Some(t) => t,
            None => now,
        }
    }

    /// The wait that is under way is over at `now`.
    pub open spec fn is_over(self, now: u64, wait: u64) -> bool {
        match self.reprobed_at {
            Some(t) => shared_defs::since(now, t) >= ACK_REPROBE,
            None => shared_defs::since(now, self.began(now)) >= wait,
        }
    }

    /// What looking at the wait at `now` calls for, while it runs: nothing before it is over,
    /// then asking once more over a link that is alive, and otherwise giving up.
    pub open spec fn calls_for(self, now: u64, wait: u64, link_alive: bool) -> Option<AckFallback> {
        if !self.is_over(now, wait) {
            None
        } else if link_alive && self.reprobed_at is None {
            Some(AckFallback::Reprobe)
        } else {
            Some(AckFallback::FailUnconfirmed)
        }
    }

    /// What looking at the wait at `now` makes of it, while it runs.
    pub open spec fn looked_at(self, now: u64, wait: u64, link_alive: bool) -> AckWindow {
        AckWindow {
            sent_all_at: Some(self.began(now)),
            reprobed_at: if self.calls_for(now, wait, link_alive) == Some(AckFallback::Reprobe) {
                Some(now)
            } else {
                self.reprobed_at
            },
        }
    }

    /// Look at the wait at `now`. It runs while everything has left this side and not
    /// everything is done.
    pub fn step(
        &mut self,
        now: u64,
        wait: u64,
        all_sent: bool,
        all_done: bool,
        link_alive: bool,
    ) -> (r: AckStep)
        requires
            old(self).wf(),
        ensures
            final(self).wf(),
            !(all_sent && !all_done) ==> *final(self) == *old(self) && !r.flush && r.act is None,
            all_sent && !all_done ==> steps_to(
                *old(self),
                *final(self),
                now,
                wait,
                link_alive,
                r.act,
            ) && (r.flush <==> old(self).sent_all_at is None),
    {
        let mut flush: bool = false;
        let mut act: Option<AckFallback> = None;
        if all_sent && !all_done {
            if self.sent_all_at.is_none() {
                self.sent_all_at = Some(now);
                flush = true;
            }
            let over: bool = match self.reprobed_at {
                Some(t) => elapsed(now, t) >= ACK_REPROBE,
                None => match self.sent_all_at {
                    Some(t) => elapsed(now, t) >= wait,
                    None => false,
                },
            };
            if over {
                let d = decide_ack_fallback(link_alive, self.reprobed_at.is_some());
                match d {
                    AckFallback::Reprobe => {
                        self.reprobed_at = Some(now);
                    },
                    AckFallback::FailUnconfirmed => {},
                }
                act = Some(d);
            }
        }
        AckStep { flush, act }
    }
}

/// The receiver is asked again at most once: after that the wait ends only in giving up.
pub proof fn asked_again_at_most_once(
    a: AckWindow,
    b: AckWindow,
    now: u64,
    wait: u64,
    link_alive: bool,
    act: Option<AckFallback>,
)
    requires
        a.reprobed_at is Some,
        steps_to(a, b, now, wait, link_alive, act),
    ensures
        act != Some(AckFallback::Reprobe),
        b.reprobed_at == a.reprobed_at,
{
}

/// The wait is bounded: once both windows have passed, looking at it gives the send up.
pub proof fn the_wait_ends(
    a: AckWindow,
    b: AckWindow,
    now: u64,
    wait: u64,
    link_alive: bool,
    act: Option<AckFallback>,
)
    requires
        a.reprobed_at is Some,
        shared_defs::since(now, a.reprobed_at->0) >= ACK_REPROBE,
        steps_to(a, b, now, wait, link_alive, act),
    ensures
        act == Some(AckFallback::FailUnconfirmed),
{
}

/// The line about a file of which no word came.
pub open spec fn unconfirmed_text(name: Seq<char>) -> Seq<char> {
    "  "@ + name
        + ": delivery not confirmed (no whole-file delivery-ack), the receiver may have gotten nothing; NOT marking complete"@
}

/// The line about a file of which no word came.
pub fn unconfirmed_line(name: &str) -> (r: String)
    ensures
        r@ == unconfirmed_text(name@),
{
    cat3(
        "  ",
        name,
        ": delivery not confirmed (no whole-file delivery-ack), the receiver may have gotten nothing; NOT marking complete",
    )
}

/// Why a send is given up of which no word came about `n` files.
pub open spec fn unconfirmed_why(n: nat) -> Seq<char> {
    "delivery not confirmed: "@ + text::decimal(
        if n == 0 {
            1nat
        } else {
            n
        },
    )
        + " file(s) sent but never delivery-acked by the receiver (treating as unconfirmed, not delivered)"@
}

/// Why a send is given up of which no word came about `n` files.
pub fn unconfirmed_error(n: usize) -> (r: String)
    ensures
        r@ == unconfirmed_why(n as nat),
{
    let d = to_decimal(
        if n == 0 {
            1
        } else {
            n as u64
        },
    );
    cat3(
        "delivery not confirmed: ",
        d.as_str(),
        " file(s) sent but never delivery-acked by the receiver (treating as unconfirmed, not delivered)",
    )
}

} // verus!
