//! A send from the first wait for a peer to its end.

use vstd::prelude::*;
use vstd::string::*;
use crate::ack_window;
use crate::ack_window::{unconfirmed_error, unconfirmed_line, AckFallback, AckWindow};
use crate::cadence::STATE_EVERY;
use crate::candidates;
use crate::candidates::{asks_probe, parse_direct, DirectOffer};
use crate::dispatch;
use crate::dispatch::{answer, Answer, SenderView};
use crate::finish;
use crate::finish::{away_secs, stuck_again};
use crate::frame;
use crate::frame::text_at;
use crate::keyed;
use crate::offer;
use crate::outgoing;
use crate::outgoing::{send_outcome, Delivered, Outbox, SendOutcome};
use crate::overlay_links;
use crate::overlay_links::{parse_challenge, worker_ports, Challenge};
use crate::renewal_lifecycle;
use crate::renewal_lifecycle::{parse_enroll_challenge, EnrollAsked};
use crate::send_loop;
use crate::send_loop::{
    establish_check, is_ceremony, is_stranger, next_wait, proves_again, vacate, SendAuth, Wait,
};
use crate::shared_defs;
use crate::shared_defs::{elapsed, REJOIN_WINDOW, SECOND};
use crate::text;
use crate::text::{cat3, same, to_decimal};

verus! {

/// What a send is about and how far it is.
pub struct SendSession {
    pub outbox: Outbox,
    /// How far the proof is that the receiver knows the code.
    pub auth: SendAuth,
    /// The peer that files are sent to.
    pub active: Option<String>,
    /// A live link to it came up.
    pub established: bool,
    /// How far the wait for the receiver's word is.
    pub window: AckWindow,
    /// When the send began.
    pub started: u64,
    /// How long a first live link is waited for; zero for as long as it takes.
    pub establish_limit: u64,
    /// How long the receiver's word is waited for.
    pub ack_wait: u64,
    /// When the peers were last told how things stand.
    pub told: u64,
    /// The peers that we proved ourselves to again.
    pub reproved: Vec<String>,
    /// How often a link got stuck before one was live.
    pub stuck: u32,
}

/// What is known of a peer beside the send.
#[derive(Clone, Copy, Debug, PartialEq, Eq, Structural)]
pub struct PeerView {
    /// The files go to a device of the fleet that this peer has not proved to be.
    pub unproved: bool,
    /// There is a channel to answer it over.
    pub ready: bool,
    /// There is a proof of ours to give it.
    pub can_prove: bool,
}

/// What signalling data asks for.
pub enum SignalStep {
    /// Take up this direct offer, and answer the probe where `probe`.
    Direct { offer: DirectOffer, probe: bool },
    /// Hand it to the ceremony.
    Ceremony,
    /// Let the link have it.
    Apply,
}

/// What to do before the next event.
pub enum Before {
    /// Fail.
    Fail { message: String },
    /// Wait for it as the links ask, or for this long at most.
    Wait { nanos: Option<u64> },
}

/// What to do after an event.
pub enum After {
    /// Go on: push out what is buffered where `flush`, and send these frames where the receiver
    /// is asked again.
    GoOn { flush: bool, ends: Vec<serde_json::Value> },
    /// Say these lines and fail: the receiver did not confirm.
    Unconfirmed { lines: Vec<String>, message: String },
    /// Nothing is left to do.
    Finished { outcome: SendOutcome },
}

/// What a peer's frame asks for.
pub enum Asked {
    /// Nothing.
    Nothing,
    /// Take the frame for the proof which device of the fleet this is.
    Handshake,
    /// The connections that were asked for by `peer` can be made to these ports.
    Workers { peer: String, ports: Vec<u16> },
    /// Prove which device we are.
    Identity { challenge: Option<Challenge> },
    /// Answer the challenge to enroll.
    Enroll { challenge: Option<EnrollAsked> },
    /// The receiver is away for so many seconds.
    Away { secs: u64 },
    /// The receiver is there.
    Back,
    /// The receiver is there; offer these files again, and prove ourselves where `prove`.
    State { offers: Vec<serde_json::Value>, prove: bool },
    /// An answer to our offer to remember each other.
    KeepAck,
    /// An offer to remember each other.
    Keep,
    /// The receiver does not know us: `stranger` where it said so.
    Verdict { stranger: bool },
    /// Send the bytes of this file from here on.
    Stream { id: String, offset: u64 },
    /// Say this of a file that was declined, where there is one.
    Declined { line: Option<String> },
    /// Say this of a file that arrived, where it is news.
    Delivered { news: Option<Delivered> },
}

impl SendSession {
    /// The parts are in order.
    pub open spec fn wf(self) -> bool {
        self.outbox.wf() && self.auth.wf() && self.window.wf()
    }

    /// A send that begins.
    pub fn new(outbox: Outbox, use_code: bool, now: u64, establish_limit: u64, ack_wait: u64) -> (r:
        SendSession)
        requires
            outbox.wf(),
        ensures
            r.wf(),
            r.outbox == outbox,
            r.auth.use_code == use_code,
            r.auth.done == !use_code,
            r.active is None,
            !r.established,
            r.window.sent_all_at is None,
            r.started == now,
            r.establish_limit == establish_limit,
            r.ack_wait == ack_wait,
            r.told == now,
            r.reproved@.len() == 0,
            r.stuck == 0,
    {
        SendSession {
            outbox,
            auth: SendAuth::new(use_code),
            active: None,
            established: false,
            window: AckWindow::new(),
            started: now,
            establish_limit,
            ack_wait,
            told: now,
            reproved: Vec::new(),
            stuck: 0,
        }
    }

    /// `pid` is the peer that files are sent to.
    pub open spec fn is_active(self, pid: Seq<char>) -> bool {
        self.active matches Some(a) && a@ == pid
    }

    /// Whether `pid` is the peer that files are sent to.
    pub fn sends_to(&self, pid: &str) -> (r: bool)
        ensures
            r == self.is_active(pid@),
    {
        match &self.active {
            Some(a) => same(a.as_str(), pid),
            None => false,
        }
    }

    /// A peer that files could go to is linked: they go to it where nobody else has them and,
    /// where a particular device is meant, it is that one (`fits`).
    pub fn take_up(&mut self, pid: &str, fits: bool) -> (r: bool)
        requires
            old(self).wf(),
        ensures
            final(self).wf(),
            r == (fits && old(self).active is None),
            *final(self) == (SendSession { active: final(self).active, ..*old(self) }),
            if r {
                final(self).is_active(pid@)
            } else {
                final(self).active == old(self).active
            },
    {
        if fits && self.active.is_none() {
            self.active = Some(pid.to_owned());
            true
        } else {
            false
        }
    }

    /// `pid` proved to be the device that is meant: the files go to it, whoever had them.
    pub fn settle_on(&mut self, pid: &str)
        requires
            old(self).wf(),
        ensures
            final(self).wf(),
            *final(self) == (SendSession { active: final(self).active, ..*old(self) }),
            final(self).is_active(pid@),
    {
        self.active = Some(pid.to_owned());
    }

    /// `pid` is not, or did not prove to be, the device that is meant: the files do not go to it,
    /// and a live link is waited for again.
    pub fn give_up_on(&mut self, pid: &str)
        requires
            old(self).wf(),
        ensures
            final(self).wf(),
            *final(self) == (SendSession {
                active: final(self).active,
                established: false,
                ..*old(self)
            }),
            !final(self).is_active(pid@),
            shared_defs::view_of(final(self).active) == (if old(self).is_active(pid@) {
                None
            } else {
                shared_defs::view_of(old(self).active)
            }),
    {
        vacate(&mut self.active, pid);
        self.established = false;
    }

    /// A link got stuck while it was made. Tells whether to hint at a local cause: from the
    /// second time on, where none was live.
    pub fn got_stuck(&mut self) -> (r: bool)
        requires
            old(self).wf(),
        ensures
            final(self).wf(),
            *final(self) == (SendSession { stuck: final(self).stuck, ..*old(self) }),
            final(self).stuck == (if old(self).established || old(self).stuck == u32::MAX {
                old(self).stuck
            } else {
                (old(self).stuck + 1) as u32
            }),
            r == (!old(self).established && final(self).stuck >= 2),
    {
        let live: bool = self.established;
        stuck_again(&mut self.stuck, live)
    }

    /// A peer left. Where there is a file that is not done yet it may come back for it, and this
    /// is said.
    pub fn left(&self) -> (r: Option<String>)
        ensures
            r is Some <==> self.outbox.files@.len() > 0 && !self.outbox.is_all_done(),
            r matches Some(s) ==> s@ == "disconnected, waiting up to "@ + text::decimal(
                (shared_defs::REJOIN_WINDOW / shared_defs::SECOND) as nat,
            ) + "s"@,
    {
        if self.outbox.files.len() == 0 || self.outbox.all_done() {
            None
        } else {
            let secs = to_decimal(REJOIN_WINDOW / SECOND);
            Some(cat3("disconnected, waiting up to ", secs.as_str(), "s"))
        }
    }

    /// Signalling data came.
    pub fn signal(&self, data: &serde_json::Value) -> (r: SignalStep)
        ensures
            ({
                let d = frame::json(*data);
                let t = d.text_at("type"@);
                if t == Some("transport-offer"@) {
                    r matches SignalStep::Direct { offer, probe } && candidates::describes_direct(
                        d,
                        offer,
                    ) && probe == (d.flag_at("probe"@) == Some(true))
                } else if self.auth.use_code && (t == Some("pake-msg"@) || t == Some(
                    "pake-confirm"@,
                )) {
                    r is Ceremony
                } else {
                    r is Apply
                }
            }),
    {
        let direct: bool = match text_at(data, "type") {
            Some(t) => same(t, "transport-offer"),
            None => false,
        };
        if direct {
            SignalStep::Direct { offer: parse_direct(data), probe: asks_probe(data) }
        } else if self.auth.use_code && is_ceremony(data) {
            SignalStep::Ceremony
        } else {
            SignalStep::Apply
        }
    }

    /// Look at the clock before the next event is waited for; `awaited` where a peer that left
    /// is expected back.
    pub fn before(&self, awaited: bool, now: u64) -> (r: Before)
        ensures
            r is Fail <==> send_loop::is_overdue(
                self.established,
                self.establish_limit,
                self.started,
                now,
            ) || (self.active is None && !awaited && shared_defs::since(now, self.started)
                >= send_loop::CLAIM_WAIT),
            r matches Before::Wait { nanos } ==> (nanos is None <==> self.active is Some || awaited),
            r matches Before::Wait { nanos: Some(n) } ==> n > 0 && n == send_loop::slice_at(
                self.started,
                now,
            ),
            r matches Before::Fail { message } ==> message@ == if send_loop::is_overdue(
                self.established,
                self.establish_limit,
                self.started,
                now,
            ) {
                send_loop::overdue_text(self.establish_limit)
            } else {
                send_loop::nobody_text()
            },
    {
        match establish_check(self.established, self.establish_limit, self.started, now) {
            Some(message) => {
                return Before::Fail { message };
            },
            None => {},
        }
        match next_wait(self.active.is_some() || awaited, self.started, now) {
            Wait::Links => Before::Wait { nanos: None },
            Wait::Slice { nanos } => Before::Wait { nanos: Some(nanos) },
            Wait::Fail { message } => Before::Fail { message },
        }
    }

    /// Whether it is time to tell the peers how things stand.
    pub fn tells_state(&mut self, now: u64) -> (r: bool)
        requires
            old(self).wf(),
        ensures
            final(self).wf(),
            r == (shared_defs::since(now, old(self).told) >= STATE_EVERY),
            *final(self) == (SendSession {
                told: if r {
                    now
                } else {
                    old(self).told
                },
                ..*old(self)
            }),
    {
        if elapsed(now, self.told) >= STATE_EVERY {
            self.told = now;
            true
        } else {
            false
        }
    }

    /// A frame came from `pid` at `now`.
    pub fn hear(
        &mut self,
        pid: &str,
        f: &serde_json::Value,
        hello: &str,
        p: &PeerView,
        now: u64,
    ) -> (r: Asked)
        requires
            old(self).wf(),
        ensures
            final(self).wf(),
            heard(*old(self), *final(self), pid@, frame::json(*f), hello@, *p, now, r),
    {
        let view = SenderView { unproved: p.unproved, active: self.sends_to(pid) };
        match answer(f, hello, &view) {
            Answer::Nothing => Asked::Nothing,
            Answer::Handshake => Asked::Handshake,
            Answer::WorkerPorts => {
                proof {
                    reveal_strlit("");
                    assert(""@ =~= Seq::<char>::empty());
                }
                Asked::Workers { peer: offer::text_member(f, "for", ""), ports: worker_ports(f) }
            },
            Answer::IdentityChallenge => Asked::Identity { challenge: parse_challenge(f) },
            Answer::EnrollChallenge => Asked::Enroll { challenge: parse_enroll_challenge(f) },
            Answer::Away => Asked::Away { secs: away_secs(f) },
            Answer::Back => Asked::Back,
            Answer::State => {
                let offers = self.outbox.reconcile(f);
                let able: bool = p.can_prove && p.ready;
                let prove: bool = proves_again(f, &mut self.reproved, pid, able);
                Asked::State { offers, prove }
            },
            Answer::KeepAck => Asked::KeepAck,
            Answer::Keep => Asked::Keep,
            Answer::Verdict => Asked::Verdict { stranger: is_stranger(f) },
            Answer::Accept => {
                if !p.ready {
                    return Asked::Nothing;
                }
                let (id, offset) = self.outbox.accepted(f);
                Asked::Stream { id, offset }
            },
            Answer::Decline => Asked::Declined { line: self.outbox.refused(f) },
            Answer::Delivered => Asked::Delivered { news: self.outbox.delivered(f, now) },
        }
    }

    /// Look at where things stand after an event; `link_alive` where there is a link to send
    /// over. A send ends when every file is done, and fails when the receiver's word does not
    /// come.
    pub fn after(&mut self, now: u64, link_alive: bool) -> (r: After)
        requires
            old(self).wf(),
        ensures
            final(self).wf(),
            looked(*old(self), *final(self), now, link_alive, r),
    {
        let all_sent: bool = self.outbox.all_sent();
        let all_done: bool = self.outbox.all_done();
        let step = self.window.step(now, self.ack_wait, all_sent, all_done, link_alive);
        if all_done {
            let (completed, declined) = self.outbox.tally();
            proof {
                if declined == 0 {
                    outgoing::complete_means_all_confirmed(self.outbox);
                }
            }
            return After::Finished { outcome: send_outcome(completed, declined) };
        }
        match step.act {
            Some(AckFallback::FailUnconfirmed) => {
                let names = self.outbox.unconfirmed();
                let mut lines: Vec<String> = Vec::new();
                let mut i: usize = 0;
                while i < names.len()
                    invariant
                        i <= names@.len(),
                        lines@.len() == i,
                        forall|j: int|
                            0 <= j < i ==> (#[trigger] lines@[j])@ == ack_window::unconfirmed_text(
                                names@[j]@,
                            ),
                    decreases names.len() - i,
                {
                    lines.push(unconfirmed_line(names[i].as_str()));
                    i += 1;
                }
                proof {
                    assert(frame::views(names@).len() == names@.len());
                    assert forall|j: int| 0 <= j < names@.len() implies #[trigger] names@[j]@
                        == Outbox::open_names(self.outbox.files@)[j] by {
                        assert(frame::views(names@)[j] == names@[j]@);
                    }
                }
                After::Unconfirmed { lines, message: unconfirmed_error(names.len()) }
            },
            Some(AckFallback::Reprobe) => {
                After::GoOn { flush: step.flush, ends: self.outbox.ends() }
            },
            None => {
                let ends: Vec<serde_json::Value> = Vec::new();
                proof {
                    assert(outgoing::jsons(ends@) =~= Seq::<frame::Json>::empty());
                }
                After::GoOn { flush: step.flush, ends }
            },
        }
    }
}

impl SendSession {
    /// The receiver's word is waited for: everything that is wanted has left this side, and not
    /// all of it is done.
    pub open spec fn is_waiting(self) -> bool {
        self.outbox.is_all_sent() && !self.outbox.is_all_done()
    }

    /// What waiting for the receiver's word calls for.
    pub open spec fn calls_for(self, now: u64, link_alive: bool) -> Option<AckFallback> {
        if self.is_waiting() {
            self.window.calls_for(now, self.ack_wait, link_alive)
        } else {
            None
        }
    }
}

/// What looking at a send after an event comes to. Nothing but the wait for the receiver's word
/// changes by it, and that only while it runs.
pub open spec fn looked(
    was: SendSession,
    now_s: SendSession,
    now: u64,
    link_alive: bool,
    r: After,
) -> bool {
    let files = was.outbox.files@;
    let completed = outgoing::delivered_count(files);
    let declined = outgoing::declined_count(files);
    let open = Outbox::open_names(files);
    &&& now_s == (SendSession {
        window: if was.is_waiting() {
            was.window.looked_at(now, was.ack_wait, link_alive)
        } else {
            was.window
        },
        ..was
    })
    &&& r is Finished <==> was.outbox.is_all_done()
    &&& r is Unconfirmed <==> was.calls_for(now, link_alive) == Some(AckFallback::FailUnconfirmed)
    &&& r matches After::Finished { outcome } ==> outcome == (if declined == 0 {
        SendOutcome::Complete { completed: completed as usize }
    } else {
        SendOutcome::Declined { completed: completed as usize, declined: declined as usize }
    })
    &&& r matches After::Finished { outcome: SendOutcome::Complete { completed: n } } ==> n
        == files.len() && forall|i: int| 0 <= i < files.len() ==> (#[trigger] files[i]).acked
    &&& r matches After::GoOn { flush, ends } ==> {
        &&& flush <==> was.is_waiting() && was.window.sent_all_at is None
        &&& outgoing::jsons(ends@) == if was.calls_for(now, link_alive) == Some(
            AckFallback::Reprobe,
        ) {
            outgoing::ends_of(files)
        } else {
            Seq::empty()
        }
    }
    &&& r matches After::Unconfirmed { lines, message } ==> {
        &&& lines@.len() == open.len()
        &&& forall|i: int|
            0 <= i < lines@.len() ==> (#[trigger] lines@[i])@ == ack_window::unconfirmed_text(open[i])
        &&& message@ == ack_window::unconfirmed_why(open.len())
    }
}

/// A send ends: from the moment on at which everything that is wanted has left this side, it is
/// looked at no more than three times before it has finished or failed, if the first wait lies
/// between the first two looks and the second wait between the last two. Whatever happens
/// between the looks, and whether the link lives or not, does not matter, nor that some of the
/// files were declined.
pub proof fn a_send_ends(
    was: (SendSession, SendSession, SendSession),
    then: (SendSession, SendSession, SendSession),
    at: (u64, u64, u64),
    alive: (bool, bool, bool),
    r: (After, After, After),
)
    requires
        was.0.window.wf(),
        was.0.window.sent_all_at is None,
        was.0.outbox.is_all_sent(),
        was.1.outbox.is_all_sent(),
        was.2.outbox.is_all_sent(),
        looked(was.0, then.0, at.0, alive.0, r.0),
        looked(was.1, then.1, at.1, alive.1, r.1),
        looked(was.2, then.2, at.2, alive.2, r.2),
        was.1.window == then.0.window,
        was.2.window == then.1.window,
        was.1.ack_wait == was.0.ack_wait,
        was.2.ack_wait == was.0.ack_wait,
        at.0 + was.0.ack_wait <= at.1,
        at.1 + ack_window::ACK_REPROBE <= at.2,
    ensures
        r.0 !is GoOn || r.1 !is GoOn || r.2 !is GoOn,
{
}

/// What a frame asks for, and what it makes of the send.
pub open spec fn heard(
    was: SendSession,
    now_s: SendSession,
    pid: Seq<char>,
    f: frame::Json,
    hello: Seq<char>,
    p: PeerView,
    now: u64,
    r: Asked,
) -> bool {
    let kind = match f.text_at("type"@) {
        Some(t) => {
            let a = dispatch::answer_as(
                t,
                hello,
                SenderView { unproved: p.unproved, active: was.is_active(pid) },
            );
            if a is Accept && !p.ready {
                Answer::Nothing
            } else {
                a
            }
        },
        None => Answer::Nothing,
    };
    let id = outgoing::id_of(f);
    &&& now_s == (SendSession { outbox: now_s.outbox, reproved: now_s.reproved, ..was })
    &&& !(kind is State || kind is Accept || kind is Decline || kind is Delivered) ==> now_s == was
    &&& kind !is State ==> now_s.reproved == was.reproved
    &&& match kind {
        Answer::Nothing => r is Nothing,
        Answer::Handshake => r is Handshake,
        Answer::WorkerPorts => r matches Asked::Workers { peer, ports } && peer@ == offer::text_or(
            f,
            "for"@,
            Seq::empty(),
        ) && ports@ == overlay_links::ports_of(f),
        Answer::IdentityChallenge => r matches Asked::Identity { challenge }
            && overlay_links::carries_challenge(f, challenge),
        Answer::EnrollChallenge => r matches Asked::Enroll { challenge }
            && renewal_lifecycle::asks_to_enroll(f, challenge),
        Answer::Away => r == (Asked::Away { secs: finish::away_of(f) }),
        Answer::Back => r is Back,
        Answer::State => r matches Asked::State { offers, prove } && outgoing::jsons(offers@)
            == outgoing::reoffers_of(was.outbox.files@, f) && prove == (f.flag_at("trusted"@) == Some(
            false,
        ) && !keyed::listed(was.reproved@, pid) && p.can_prove && p.ready) && (forall|q: Seq<char>| #[trigger]
            keyed::listed(now_s.reproved@, q) == (keyed::listed(was.reproved@, q) || (prove && q
                == pid))),
        Answer::KeepAck => r is KeepAck,
        Answer::Keep => r is Keep,
        Answer::Verdict => r matches Asked::Verdict { stranger } && stranger == (f.flag_at("ok"@)
            == Some(false)),
        Answer::Accept => r matches Asked::Stream { id: i, offset } && i@ == id && offset
            == offer::count_or_zero(f, "offset"@),
        Answer::Decline => r matches Asked::Declined { line } && (line is Some <==> outgoing::known(
            was.outbox.files@,
            id,
        )),
        Answer::Delivered => r matches Asked::Delivered { news } && (news is Some ==> outgoing::known(
            was.outbox.files@,
            id,
        )),
    }
    &&& kind is State ==> now_s.outbox.files@.len() == was.outbox.files@.len() && forall|i: int|
        0 <= i < was.outbox.files@.len() ==> #[trigger] now_s.outbox.files@[i]
            == if outgoing::diverges(was.outbox.files@[i], f) {
            outgoing::Outgoing { done: false, acked: false, ..was.outbox.files@[i] }
        } else {
            was.outbox.files@[i]
        }
    &&& forall|i: int| #[trigger]
        outgoing::is_first(was.outbox.files@, id, i) ==> match kind {
            Answer::Accept => now_s.outbox.files@ == was.outbox.files@.update(
                i,
                outgoing::Outgoing { accepted_once: true, ..was.outbox.files@[i] },
            ),
            Answer::Decline => now_s.outbox.files@ == was.outbox.files@.update(
                i,
                outgoing::Outgoing { declined: true, done: true, ..was.outbox.files@[i] },
            ) && r->line->0@ == "declined: "@ + was.outbox.files@[i].name@,
            Answer::Delivered => now_s.outbox.files@ == if was.outbox.files@[i].acked {
                was.outbox.files@
            } else {
                was.outbox.files@.update(
                    i,
                    outgoing::Outgoing { acked: true, done: true, ..was.outbox.files@[i] },
                )
            } && (r->news is Some <==> !was.outbox.files@[i].acked) && (r->news is Some
                ==> outgoing::tells_of(was.outbox.files@[i], now, r->news->0)),
            _ => true,
        }
    &&& (kind is Accept || kind is Decline || kind is Delivered) && !outgoing::known(
        was.outbox.files@,
        id,
    ) ==> now_s.outbox.files@ == was.outbox.files@
}

/// Whoever is not the peer that files are sent to changes nothing of a send, whatever it says:
/// it can neither accept nor decline a file, nor confirm one.
pub proof fn only_the_receivers_word_counts(
    was: SendSession,
    now_s: SendSession,
    pid: Seq<char>,
    f: frame::Json,
    hello: Seq<char>,
    p: PeerView,
    now: u64,
    r: Asked,
)
    requires
        heard(was, now_s, pid, f, hello, p, now, r),
        !was.is_active(pid),
    ensures
        now_s == was,
        r !is Stream,
        r !is Declined,
        r !is Delivered,
{
}

} // verus!
