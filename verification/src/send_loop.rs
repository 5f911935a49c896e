//! The decisions of a sender between events: whether it still waits, whom it may offer its
//! files to, and what it makes of the news about its peers.

use vstd::prelude::*;
use vstd::string::*;
use crate::candidates::Inbound;
use crate::frame;
use crate::frame::{flag_at, text_at};
use crate::keyed;
use crate::keyed::lists;
use crate::offer;
use crate::offer::text_member;
use crate::shared_defs;
use crate::shared_defs::{after, elapsed, SECOND};
use crate::text;
use crate::text::{cat, cat3, same, to_decimal};

verus! {

/// How long a first live link is waited for, unless the operator says otherwise.
pub const ESTABLISH_WAIT: u64 = 60_000_000_000;

/// How long a peer is waited for.
pub const CLAIM_WAIT: u64 = 600_000_000_000;

/// The longest that the wait for an event lasts while no peer is there.
pub const SLICE: u64 = 2_000_000_000;

/// No live link came up in time. A limit of zero is none; a link that did come up ends the
/// wait for good.
pub open spec fn is_overdue(established: bool, limit: u64, started: u64, now: u64) -> bool {
    !established && limit != 0 && shared_defs::since(now, started) >= limit
}

/// Why a send fails for which no live link came up.
pub open spec fn overdue_text(limit: u64) -> Seq<char> {
    "no peer connected within "@ + text::decimal((limit / SECOND) as nat)
        + "s, is a receiver running / the page open? (set FILAMENT_SEND_TIMEOUT to change or 0 to disable)"@
}

/// Fail where no live link came up in time.
pub fn establish_check(established: bool, limit: u64, started: u64, now: u64) -> (r: Option<String>)
    ensures
        r is Some <==> is_overdue(established, limit, started, now),
        r matches Some(e) ==> e@ == overdue_text(limit),
{
    if !established && limit != 0 && elapsed(now, started) >= limit {
        let secs = to_decimal(limit / SECOND);
        Some(
            cat3(
                "no peer connected within ",
                secs.as_str(),
                "s, is a receiver running / the page open? (set FILAMENT_SEND_TIMEOUT to change or 0 to disable)",
            ),
        )
    } else {
        None
    }
}

/// How to wait for the next event.
pub enum Wait {
    /// As the links ask.
    Links,
    /// This long at most, and look at everything again.
    Slice { nanos: u64 },
    /// No longer.
    Fail { message: String },
}

/// How long a slice of the wait for a peer is: a short while, and no longer than the limit.
pub open spec fn slice_at(started: u64, now: u64) -> int {
    let left = CLAIM_WAIT - shared_defs::since(now, started);
    if SLICE <= left {
        SLICE as int
    } else {
        left
    }
}

/// Why a send fails to which no peer came.
pub open spec fn nobody_text() -> Seq<char> {
    "timed out waiting for a peer, is the other device online and on the same server? (--code makes pairing explicit)"@
}

/// How to wait for the next event: while no peer is there and none is expected back, in short
/// slices and no longer than the limit, so that what was lost on the way to the server is
/// sent again.
pub fn next_wait(peer_expected: bool, started: u64, now: u64) -> (r: Wait)
    ensures
        r is Links <==> peer_expected,
        r is Fail <==> !peer_expected && shared_defs::since(now, started) >= CLAIM_WAIT,
        r matches Wait::Slice { nanos } ==> nanos > 0 && nanos == slice_at(started, now),
        r matches Wait::Fail { message } ==> message@ == nobody_text(),
{
    if peer_expected {
        return Wait::Links;
    }
    let past: u64 = elapsed(now, started);
    if past >= CLAIM_WAIT {
        return Wait::Fail {
            message:
                "timed out waiting for a peer, is the other device online and on the same server? (--code makes pairing explicit)".to_owned(),
        };
    }
    let left: u64 = CLAIM_WAIT - past;
    Wait::Slice {
        nanos: if SLICE <= left {
            SLICE
        } else {
            left
        },
    }
}

/// What a sender knows of the peer over a link that came up.
#[derive(Clone, Copy, Debug, PartialEq, Eq, Structural)]
pub struct ReadyView {
    /// The files go to one device of the fleet.
    pub fleet_target: bool,
    /// This peer proved to be another device of it.
    pub wrong_device: bool,
    /// This peer proved to be that device.
    pub fleet_proved: bool,
    /// This peer is the one that files are sent to.
    pub active: bool,
    /// The link is still there.
    pub linked: bool,
    /// The receiver was given a code.
    pub use_code: bool,
    /// The receiver proved that it knows the code.
    pub pake_done: bool,
    /// The link itself proved that both ends hold one secret.
    pub direct: bool,
    /// We share a secret with the device that this should be.
    pub secret: bool,
    /// The link has fingerprints that a proof can be bound to.
    pub fingerprints: bool,
}

/// How to prove who we are before anything is offered.
#[derive(Clone, Copy, Debug, PartialEq, Eq, Structural)]
pub enum Proving {
    /// There is nothing to prove.
    Nothing,
    /// Send the proof.
    Send,
    /// There is nothing that the proof can be bound to: say so and go on.
    Unbound,
}

/// What to do over a link that came up.
#[derive(Clone, Copy, Debug, PartialEq, Eq, Structural)]
pub enum ReadyStep {
    /// Drop the link: this is another device.
    Drop,
    /// Keep the link and offer nothing over it.
    Idle,
    /// Offer nothing until the receiver has proved that it knows the code.
    AwaitCode,
    /// Offer nothing until the device has proved itself.
    AwaitFleet,
    /// Offer the files.
    Offer(Proving),
}

/// What to do over a link that came up.
#[derive(Clone, Copy, Debug, PartialEq, Eq, Structural)]
pub struct Ready {
    /// The wait for a first live link is over.
    pub established: bool,
    /// Show our certificate and ask for theirs.
    pub greet: bool,
    pub step: ReadyStep,
}

impl ReadyView {
    /// This peer is another device than the one asked for.
    pub open spec fn is_other(self) -> bool {
        self.fleet_target && self.wrong_device
    }

    /// The receiver still has to prove that it knows the code.
    pub open spec fn awaits_code(self) -> bool {
        self.use_code && !self.direct && !self.pake_done
    }

    /// The device still has to prove itself.
    pub open spec fn awaits_fleet(self) -> bool {
        self.fleet_target && !self.fleet_proved
    }
}

/// `r` is what to do over the link of which `v` is known.
pub open spec fn fits(v: ReadyView, r: Ready) -> bool {
    &&& r.established == (!v.is_other() && v.active)
    &&& r.greet == (!v.is_other() && v.active && v.awaits_fleet())
    &&& r.step is Drop <==> v.is_other()
    &&& r.step is Idle <==> !v.is_other() && (!v.active || !v.linked)
    &&& r.step is AwaitCode <==> !v.is_other() && v.active && v.linked && v.awaits_code()
    &&& r.step is AwaitFleet <==> !v.is_other() && v.active && v.linked && !v.awaits_code()
        && v.awaits_fleet()
    &&& r.step matches ReadyStep::Offer(p) ==> p == if v.direct || !v.secret {
        Proving::Nothing
    } else if v.fingerprints {
        Proving::Send
    } else {
        Proving::Unbound
    }
}

/// What to do over a link that came up.
pub fn channel_ready(v: &ReadyView) -> (r: Ready)
    ensures
        fits(*v, r),
{
    if v.fleet_target && v.wrong_device {
        return Ready { established: false, greet: false, step: ReadyStep::Drop };
    }
    if !v.active {
        return Ready { established: false, greet: false, step: ReadyStep::Idle };
    }
    let unproved: bool = v.fleet_target && !v.fleet_proved;
    let step = if !v.linked {
        ReadyStep::Idle
    } else if v.use_code && !v.direct && !v.pake_done {
        ReadyStep::AwaitCode
    } else if unproved {
        ReadyStep::AwaitFleet
    } else if v.direct || !v.secret {
        ReadyStep::Offer(Proving::Nothing)
    } else if v.fingerprints {
        ReadyStep::Offer(Proving::Send)
    } else {
        ReadyStep::Offer(Proving::Unbound)
    };
    Ready { established: true, greet: unproved, step }
}

/// Files are offered only to the peer they are meant for, and only once it has proved itself
/// as far as this send asks for it: that it knows the code, that it is that device of the
/// fleet.
pub proof fn nothing_is_offered_before_proof(v: ReadyView, r: Ready)
    requires
        fits(v, r),
        r.step is Offer,
    ensures
        v.active,
        v.use_code ==> v.direct || v.pake_done,
        v.fleet_target ==> v.fleet_proved && !v.wrong_device,
{
}

/// How far a sender is with the proof that the receiver knows the code.
pub struct SendAuth {
    /// The receiver was given a code.
    pub use_code: bool,
    /// It has proved that it knows it, or need not.
    pub done: bool,
    /// With whom the ceremony runs.
    pub peer: Option<String>,
    /// When it must be over.
    pub deadline: Option<u64>,
}

/// What to do after a message of the ceremony.
pub enum AuthStep {
    /// It is not for us: without a code there is no ceremony.
    NotOurs,
    /// Wait for more.
    GoOn,
    /// The receiver knows the code: offer it the files.
    Authenticated,
    /// Nothing will be sent.
    Refused { message: String },
}

/// The peer that a ceremony runs with once `pid` has come.
pub open spec fn first_peer(p: Option<String>, pid: Seq<char>) -> Seq<char> {
    match p {
        Some(q) => q@,
        None => pid,
    }
}

impl SendAuth {
    /// A ceremony that must be over by some time runs with somebody, and there is one only
    /// where there is a code.
    pub open spec fn wf(self) -> bool {
        &&& self.deadline is Some ==> self.peer is Some
        &&& self.peer is Some ==> self.use_code
        &&& !self.use_code ==> self.done
    }

    /// Before any link.
    pub fn new(use_code: bool) -> (r: SendAuth)
        ensures
            r.wf(),
            r.use_code == use_code,
            r.done == !use_code,
            r.peer is None,
            r.deadline is None,
    {
        SendAuth { use_code, done: !use_code, peer: None, deadline: None }
    }

    /// The link to `pid` is up and it has yet to prove that it knows the code. The first
    /// such peer is the one that the ceremony runs with, and its time begins.
    pub fn await_proof(&mut self, pid: &str, now: u64, budget: u64)
        requires
            old(self).wf(),
            old(self).use_code,
        ensures
            final(self).wf(),
            final(self).use_code,
            final(self).done == old(self).done,
            final(self).peer matches Some(p) && p@ == first_peer(old(self).peer, pid@),
            final(self).deadline == Some(
                match old(self).deadline {
                    Some(t) => t,
                    None => shared_defs::later(now, budget),
                },
            ),
    {
        if self.peer.is_none() {
            self.peer = Some(pid.to_owned());
        }
        if self.deadline.is_none() {
            self.deadline = Some(after(now, budget));
        }
    }

    /// A message of the ceremony came from `from`, and `inbound` is what it did; `why` it
    /// failed, where it did.
    pub fn heard(&mut self, from: &str, inbound: Inbound, why: &str) -> (r: AuthStep)
        requires
            old(self).wf(),
        ensures
            final(self).wf(),
            final(self).use_code == old(self).use_code,
            final(self).deadline == old(self).deadline,
            r is NotOurs <==> !old(self).use_code,
            r is NotOurs ==> *final(self) == *old(self),
            r !is NotOurs ==> (final(self).peer matches Some(p) && p@ == first_peer(
                old(self).peer,
                from@,
            )),
            r is Authenticated <==> old(self).use_code && inbound is Finished && !old(self).done,
            r is Refused <==> old(self).use_code && inbound is Failed,
            final(self).done == (old(self).done || r is Authenticated),
            r matches AuthStep::Refused { message } ==> message@ == "transfer REFUSED: "@ + why@
                + ". Nothing was sent; ask for a FRESH code."@,
    {
        if !self.use_code {
            return AuthStep::NotOurs;
        }
        if self.peer.is_none() {
            self.peer = Some(from.to_owned());
        }
        match inbound {
            Inbound::Finished => {
                if self.done {
                    AuthStep::GoOn
                } else {
                    self.done = true;
                    AuthStep::Authenticated
                }
            },
            Inbound::Failed => AuthStep::Refused {
                message: cat3(
                    "transfer REFUSED: ",
                    why,
                    ". Nothing was sent; ask for a FRESH code.",
                ),
            },
            Inbound::Running => AuthStep::GoOn,
        }
    }

    /// The receiver did not prove in time that it knows the code: it does not run the
    /// ceremony, and nothing was sent.
    pub fn overdue(&self, now: u64) -> (r: Option<String>)
        ensures
            r is Some <==> !self.done && self.deadline is Some && now > self.deadline->0,
            r matches Some(e) ==> e@
                == "the other device uses an older version and can't receive securely over a code. Update it (or this CLI) so the transfer runs the encrypted handshake. Nothing was sent."@,
    {
        if self.done {
            return None;
        }
        match self.deadline {
            Some(t) => if now > t {
                Some(
                    "the other device uses an older version and can't receive securely over a code. Update it (or this CLI) so the transfer runs the encrypted handshake. Nothing was sent.".to_owned(),
                )
            } else {
                None
            },
            None => None,
        }
    }
}

/// Whether signalling data is a message of the ceremony.
pub fn is_ceremony(data: &serde_json::Value) -> (r: bool)
    ensures
        r == (frame::json(*data).text_at("type"@) == Some("pake-msg"@) || frame::json(*data).text_at(
            "type"@,
        ) == Some("pake-confirm"@)),
{
    match text_at(data, "type") {
        Some(t) => same(t, "pake-msg") || same(t, "pake-confirm"),
        None => false,
    }
}

/// Take the slot of the peer that files are sent to from `pid`, if it has it.
pub fn vacate(active: &mut Option<String>, pid: &str)
    ensures
        shared_defs::view_of(*final(active)) == if shared_defs::view_of(*old(active)) == Some(
            pid@,
        ) {
            None
        } else {
            shared_defs::view_of(*old(active))
        },
{
    let held: bool = match &*active {
        Some(a) => same(a.as_str(), pid),
        None => false,
    };
    if held {
        *active = None;
    }
}

/// Whether to offer `pid` that we remember each other: we were asked to, no offer is open,
/// and this peer has had none.
pub fn offers_remembering(asked: bool, open: bool, offered: &mut Vec<String>, pid: &str) -> (r: bool)
    ensures
        r == (asked && !open && !keyed::listed(old(offered)@, pid@)),
        keyed::gained(old(offered)@, final(offered)@, r, pid@),
{
    if asked && !open && !lists(offered, pid) {
        let name = pid.to_owned();
        proof {
            keyed::listed_push(offered@, name);
        }
        offered.push(name);
        true
    } else {
        false
    }
}

/// What to do where the server did not take our code.
pub enum CodeFailed {
    /// Somebody has it: make a new one; `words` too, where they are ours to make.
    Again { words: bool },
    /// Fail.
    Fail { message: String },
}

/// What to do where the server did not take our code.
pub fn code_failed(v: &serde_json::Value, use_code: bool, chosen: bool) -> (r: CodeFailed)
    ensures
        r is Again <==> use_code && frame::json(*v).text_at("error"@) == Some("taken"@),
        r matches CodeFailed::Again { words } ==> words == !chosen,
        r matches CodeFailed::Fail { message } ==> message@ == "pairing failed: "@ + offer::text_or(
            frame::json(*v),
            "error"@,
            "?"@,
        ),
{
    let why = text_member(v, "error", "?");
    if use_code {
        match text_at(v, "error") {
            Some(e) => if same(e, "taken") {
                return CodeFailed::Again { words: !chosen };
            },
            None => {},
        }
    }
    CodeFailed::Fail { message: cat("pairing failed: ", why.as_str()) }
}

/// The code as it is read out: the words and the number that the server keeps.
pub fn full_code(words: &str, nameplate: &str) -> (r: String)
    ensures
        r@ == words@ + "-"@ + nameplate@,
{
    cat3(words, "-", nameplate)
}

/// For how many minutes the server keeps a code.
pub fn code_minutes(v: &serde_json::Value) -> (r: u64)
    ensures
        r == (match frame::json(*v).count_at("ttl"@) {
            Some(n) => n,
            None => 600u64,
        }) / 60,
{
    let ttl: u64 = match frame::count_at(v, "ttl") {
        Some(n) => n,
        None => 600,
    };
    ttl / 60
}

/// What to do about a device that appeared on a channel.
#[derive(Clone, Copy, Debug, PartialEq, Eq, Structural)]
pub enum Appeared {
    /// It is not the one that files are sent to.
    Ignore,
    /// The link to it is alive.
    Linked,
    /// Connect to it; `announce` where this is the first that is seen of it.
    Connect { announce: bool },
}

/// What to do about a device that appeared on a channel: `ours` where it is one of ours,
/// `target` where the channel is that of the device that files are sent to. A device whose
/// link is dead is connected to again.
pub fn device_appeared(ours: bool, target: bool, link_alive: bool, seen: &mut bool) -> (r: Appeared)
    ensures
        r is Ignore <==> ours || !target,
        r is Linked <==> !ours && target && link_alive,
        r matches Appeared::Connect { announce } ==> announce == !*old(seen),
        *final(seen) == (*old(seen) || r !is Ignore),
{
    if ours || !target {
        return Appeared::Ignore;
    }
    if link_alive {
        *seen = true;
        return Appeared::Linked;
    }
    let announce: bool = !*seen;
    *seen = true;
    Appeared::Connect { announce }
}

/// Whether to prove ourselves again to a peer whose state frame says that it does not trust
/// us: once for each, and where there is a proof to give.
pub fn proves_again(state: &serde_json::Value, proved: &mut Vec<String>, pid: &str, can: bool) -> (r: bool)
    ensures
        r == (frame::json(*state).flag_at("trusted"@) == Some(false) && !keyed::listed(
            old(proved)@,
            pid@,
        ) && can),
        keyed::gained(old(proved)@, final(proved)@, r, pid@),
{
    let distrusts: bool = match flag_at(state, "trusted") {
        Some(b) => !b,
        None => false,
    };
    if distrusts && can && !lists(proved, pid) {
        let name = pid.to_owned();
        proof {
            keyed::listed_push(proved@, name);
        }
        proved.push(name);
        true
    } else {
        false
    }
}

/// The receiver's verdict on our proof is that it does not know us.
pub fn is_stranger(v: &serde_json::Value) -> (r: bool)
    ensures
        r == (frame::json(*v).flag_at("ok"@) == Some(false)),
{
    match flag_at(v, "ok") {
        Some(b) => !b,
        None => false,
    }
}

/// Whether a link over which nothing moves is to be repaired. A link that broke can be made
/// again, and one that answers is stuck. One that does neither has lost its peer, which is
/// another matter: its clock starts anew.
pub fn is_stalled(broken: bool, answers: bool) -> (r: bool)
    ensures
        r == (broken || answers),
{
    broken || answers
}

/// Why a send ends whose link cannot be repaired.
pub fn stalled_error(relay_forbidden: bool) -> (r: String)
    ensures
        r@ == if relay_forbidden {
            "couldn't establish a direct path and relay is disabled (--no-relay), partial kept; re-run to resume, or drop --no-relay"@
        } else {
            "transfer stalled and no usable path remains, partial kept; re-run to resume"@
        },
{
    if relay_forbidden {
        "couldn't establish a direct path and relay is disabled (--no-relay), partial kept; re-run to resume, or drop --no-relay".to_owned()
    } else {
        "transfer stalled and no usable path remains, partial kept; re-run to resume".to_owned()
    }
}

/// Why a send ends whose receiver was lost for good.
pub fn lost_receiver(dropped: bool) -> (r: Option<String>)
    ensures
        r is Some <==> dropped,
        r matches Some(e) ==> e@
            == "lost the receiving peer after 5 attempts; the partial is kept, re-run the same `filament send` to resume"@,
{
    if dropped {
        Some(
            "lost the receiving peer after 5 attempts; the partial is kept, re-run the same `filament send` to resume".to_owned(),
        )
    } else {
        None
    }
}

} // verus!
