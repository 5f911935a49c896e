//! A receive from the first peer that may be the sender to its end.

use vstd::prelude::*;
use vstd::string::*;
use crate::assembly;
use crate::assembly::{Assembly, EndStep, Settled};
use crate::candidates;
use crate::candidates::{asks_probe, parse_direct, Admission, Candidates, DirectOffer};
use crate::console;
use crate::console::{Answered, Questions, Show};
use crate::dispatch;
use crate::dispatch::{received, Received, ReceiverView};
use crate::finish;
use crate::finish::{
    away_secs, exit_step, lost_sender, peer_left, recv_transfer_done, stuck_again, ExitStep, ExitView,
    LeftStep,
};
use crate::fleet_links;
use crate::fleet_links::FleetLinks;
use crate::frame;
use crate::frame::{copy, text_at};
use crate::hexadecimal;
use crate::keyed::Keyed;
use crate::offer;
use crate::offer::{count_member, text_member, FileOffer, Standing};
use crate::offer_flow::{arrive, Arrival};
use crate::overlay_links;
use crate::overlay_links::{hears_announce, worker_ports};
use crate::pairing;
use crate::pairing::{
    fresh_link, introduction, keep_answer, keep_frame, Command, Introduction, Keep, KeepAcked,
    LinkStep, PairSession,
};
use crate::recv_files::{IncomingFile, VerifyResult};
use crate::remember;
use crate::send_loop::is_ceremony;
use crate::shared_defs;
use crate::shared_defs::truncate;
use crate::streams;
use crate::streams::session_name;
use crate::terminals;
use crate::terminals::{parse_resize, Terminals};
use crate::text;
use crate::text::same;

verus! {

/// How a receiver was started.
pub struct RecvPlan {
    /// With a code to type.
    pub code_path: bool,
    /// As a daemon.
    pub daemon: bool,
    /// To stay when everything has come.
    pub keep_open: bool,
    /// To serve streams.
    pub streams: bool,
    /// The name under which a peer that offers a secret is kept.
    pub remember: Option<String>,
    /// The operator says yes to everything.
    pub yes: bool,
    /// What the first file is to be called; a dash is the standard output.
    pub output: Option<String>,
    /// How long a candidate has for its ceremony.
    pub budget: u64,
    /// How long no link must have been up before a receiver that has everything leaves.
    pub window: u64,
    /// How long an offer waits for its sender to prove itself.
    pub grace: u64,
}

impl RecvPlan {
    /// Files go to the standard output.
    pub open spec fn is_to_stdout(self) -> bool {
        self.output matches Some(o) && o@ == "-"@
    }

    /// Whether files go to the standard output.
    pub fn to_stdout(&self) -> (r: bool)
        ensures
            r == self.is_to_stdout(),
    {
        match &self.output {
            Some(o) => same(o.as_str(), "-"),
            None => false,
        }
    }
}

/// A receive and how far it is.
pub struct RecvSession {
    pub plan: RecvPlan,
    /// The files that are arriving.
    pub assembly: Assembly,
    /// The offers that wait for the operator.
    pub questions: Questions,
    /// The peers that may be the sender.
    pub candidates: Candidates,
    pub pair: PairSession,
    pub fleet: FleetLinks,
    /// Since when the offers of each peer wait for its identity.
    pub holds: Keyed<u64>,
    pub terminals: Terminals,
    /// Since when everything has come and no link is up.
    pub quiet: Option<u64>,
    /// How often a link got stuck before anything came.
    pub stuck: u32,
    /// Something has come.
    pub received_before: bool,
}

/// What is known of a peer beside the receive.
pub struct PeerView {
    /// There is a link to it.
    pub linked: bool,
    /// There is a channel to answer it over.
    pub ready: bool,
    /// The overlay is up.
    pub overlay: bool,
    /// It has proved that it holds a secret of ours.
    pub trusted: bool,
    /// It is the peer that was settled on as the sender.
    pub bound: bool,
    /// It may yet prove to be a device of the fleet.
    pub undecided: bool,
    /// What its link is called.
    pub name: Option<String>,
    /// The device that it proved to be.
    pub device: Option<String>,
}

/// What a frame asks for.
pub enum Act {
    /// Nothing.
    Nothing,
    /// Serve it as what it is.
    Serve(Received),
    /// Its challenge was taken: tell the peer our address, and prove ourselves where `greet`.
    Announce { greet: bool },
    /// Check the proof which device of the fleet this is.
    Check,
    /// Watch the meeting place of this secret.
    Meet { secret: String },
    /// Look at the peer's address.
    Address,
    /// The connections that were asked for by `peer` can be made to these ports.
    Workers { peer: String, ports: Vec<u16> },
    /// Give the terminal of this stream another size, and that of the session that the stream
    /// shows, if it shows one.
    Resize { sid: u32, shows: Option<String>, cols: u16, rows: u16 },
    /// End this session.
    End { session: String },
    /// The peer is away for so many seconds.
    Away { secs: u64 },
    /// The peer is there.
    Back,
    /// See to the secret that was offered, and answer where there is an answer.
    Keep { keep: Keep, answer: Option<serde_json::Value> },
    /// Hand over our secret with this frame.
    HandOver { frame: serde_json::Value },
    /// See to the answer to our own secret.
    Kept(KeepAcked),
    /// Find out whose proof this is.
    Proof { mac: String },
    /// See to an introduction.
    Introduced(Introduction),
    /// The offer waits for its sender.
    Held,
    /// Look at this offer.
    Look(FileOffer),
    /// The file of this stream can be completed.
    Complete { sid: u32 },
}

/// A frame that is no more than what it is.
pub open spec fn is_served(k: Received) -> bool {
    ||| k is FleetPolicy
    ||| k is IdentityChallenge
    ||| k is IdentityExpose
    ||| k is TunnelKey
    ||| k is RenewRequest
    ||| k is RenewAck
    ||| k is RenewError
    ||| k is EnrollRequest
    ||| k is EnrollResponse
    ||| k is Depart
    ||| k is Roster
    ||| k is OpenAck
    ||| k is Forward
    ||| k is BootstrapAck
    ||| k is BootstrapDeny
    ||| k is StreamOff
    ||| k is Bootstrap
    ||| k is Pty
    ||| k is Exec
    ||| k is SshSign
    ||| k is Mount
}

/// What a frame from `pid` is.
pub open spec fn kind_of(
    s: RecvSession,
    pid: Seq<char>,
    f: frame::Json,
    hello: Seq<char>,
    p: PeerView,
) -> Received {
    match f.text_at("type"@) {
        Some(t) => dispatch::received_as(
            t,
            hello,
            ReceiverView {
                linked: p.linked,
                verified: s.fleet.verified@.contains_key(pid),
                overlay: p.overlay,
                streams: s.plan.streams,
            },
        ),
        None => Received::Nothing,
    }
}

/// What is known of the sender of an offer.
pub open spec fn standing(s: RecvSession, pid: Seq<char>, p: PeerView) -> Standing {
    Standing {
        code_path: s.plan.code_path,
        pake_done: s.candidates.settled,
        bound: p.bound,
        in_ceremony: s.candidates.runs(pid),
        fleet_pending: p.undecided,
    }
}

/// What the challenge of `pid` makes of what is known of the fleet.
pub open spec fn challenged(
    was: FleetLinks,
    now: FleetLinks,
    pid: Seq<char>,
    nonce: Option<Vec<u8>>,
) -> bool {
    &&& now == (FleetLinks { bind_theirs: now.bind_theirs, ..was })
    &&& now.bind_theirs@ == (if nonce is Some && nonce->0@.len() >= fleet_links::MIN_NONCE {
        was.bind_theirs@.insert(pid, nonce->0)
    } else {
        was.bind_theirs@
    })
}

/// What an offer makes of a receive. Without a code anybody may offer; with one only the peer
/// that proved to hold it. What comes too early from a peer that may be it waits, and so does
/// what comes from a device that may yet prove to be of the fleet.
pub open spec fn offered(
    was: RecvSession,
    now_s: RecvSession,
    pid: Seq<char>,
    f: frame::Json,
    p: PeerView,
    token: Seq<char>,
    now: u64,
    r: Act,
) -> bool {
    let s = standing(was, pid, p);
    if p.ready && !s.authenticated() && !s.pake_done && s.in_ceremony {
        &&& r is Held
        &&& now_s == (RecvSession { candidates: now_s.candidates, ..was })
        &&& now_s.candidates == (Candidates { offers: now_s.candidates.offers, ..was.candidates })
        &&& now_s.candidates.offers@ == was.candidates.offers@.insert(
            pid,
            now_s.candidates.offers@[pid],
        )
        &&& frame::json(now_s.candidates.offers@[pid]) == f
    } else if p.ready && s.authenticated() && !offer::has_waited(f) && p.undecided {
        let d = now_s.fleet.deferred@;
        &&& r is Held
        &&& now_s == (RecvSession { fleet: now_s.fleet, ..was })
        &&& now_s.fleet == (FleetLinks { deferred: now_s.fleet.deferred, ..was.fleet })
        &&& d.len() > 0
        &&& d.drop_last() == was.fleet.deferred@
        &&& d.last().pid@ == pid
        &&& frame::json(d.last().offer) == f
        &&& d.last().deadline == shared_defs::later(now, was.plan.grace)
    } else if p.ready && s.authenticated() {
        &&& r matches Act::Look(o)
        &&& offer::describes(f, token, o)
        &&& now_s == was
    } else {
        r is Nothing && now_s == was
    }
}

/// What the end of a stream makes of a receive.
pub open spec fn ended(
    was: RecvSession,
    now_s: RecvSession,
    pid: Seq<char>,
    sid: u32,
    r: Act,
) -> bool {
    let a = was.assembly.files@;
    let b = now_s.assembly.files@;
    &&& now_s == (RecvSession { assembly: now_s.assembly, ..was })
    &&& now_s.assembly == (Assembly { files: now_s.assembly.files, ..was.assembly })
    &&& if assembly::arriving(a, pid, sid) {
        exists|i: int| #[trigger]
            assembly::is_at(a, pid, sid, i) && assembly::same_but(a, b, i) && b[i] == (IncomingFile {
                ack_sid: sid,
                end_seen: a[i].end_seen || a[i].inflight > 0,
                ..a[i]
            }) && r == (if a[i].inflight > 0 {
                Act::Nothing
            } else {
                Act::Complete { sid }
            })
    } else {
        r is Nothing && b == a
    }
}

/// What a frame of kind `k` asks for, and what it makes of the receive.
pub open spec fn acted(
    was: RecvSession,
    now_s: RecvSession,
    pid: Seq<char>,
    f: frame::Json,
    k: Received,
    p: PeerView,
    token: Seq<char>,
    nonce: Option<Vec<u8>>,
    fresh_secret: Seq<char>,
    now: u64,
    r: Act,
) -> bool {
    let changes = k is Nonce || k is PtyClose || k is Keep || k is KeepFallback || k is KeepAck || k
        is FileOffer || k is FileEnd;
    &&& !changes ==> now_s == was
    &&& is_served(k) ==> r == Act::Serve(k)
    &&& match k {
        Received::Nonce => {
            let took = nonce is Some && nonce->0@.len() >= fleet_links::MIN_NONCE;
            &&& now_s == (RecvSession { fleet: now_s.fleet, ..was })
            &&& challenged(was.fleet, now_s.fleet, pid, nonce)
            &&& r == (if took {
                Act::Announce { greet: !was.fleet.verified@.contains_key(pid) }
            } else {
                Act::Nothing
            })
        },
        Received::Hello => r is Check,
        Received::Rendezvous => match f.text_at("secret"@) {
            Some(s) => if hexadecimal::is_hex(s) && s.len() / 2 == 32 {
                r matches Act::Meet { secret } && secret@ == s
            } else {
                r is Nothing
            },
            None => r is Nothing,
        },
        Received::Announce => if p.undecided {
            r is Nothing
        } else {
            r is Address
        },
        Received::WorkerPorts => r matches Act::Workers { peer, ports } && peer@ == offer::text_or(
            f,
            "for"@,
            Seq::empty(),
        ) && ports@ == overlay_links::ports_of(f),
        Received::PtyResize => match streams::named_sid(f) {
            Some(n) => {
                &&& r matches Act::Resize { sid, shows, cols, rows }
                &&& sid == n
                &&& shared_defs::view_of(shows) == (if was.terminals@.contains_key((pid, n)) {
                    Some(was.terminals@[(pid, n)])
                } else {
                    None
                })
                &&& cols == streams::size_or(f, "cols"@, 80)
                &&& rows == streams::size_or(f, "rows"@, 24)
            },
            None => r is Nothing,
        },
        Received::PtyClose => match streams::named_session(f, shared_defs::view_of(p.device), pid) {
            Some(s) => {
                &&& r matches Act::End { session }
                &&& session@ == s
                &&& now_s == (RecvSession { terminals: now_s.terminals, ..was })
                &&& now_s.terminals@ == terminals::without(was.terminals@, pid, None, Some(s))
            },
            None => r is Nothing && now_s == was,
        },
        Received::Away => r == (Act::Away { secs: finish::away_of(f) }),
        Received::Back => r is Back,
        Received::State => r is Back,
        Received::Keep => {
            &&& r matches Act::Keep { keep, answer }
            &&& now_s == (RecvSession { pair: now_s.pair, ..was })
            &&& pairing::keeps(
                was.pair,
                now_s.pair,
                f,
                shared_defs::view_of(was.plan.remember),
                was.plan.yes,
                shared_defs::view_of(p.name),
                keep,
            )
            &&& answer is None <==> keep is Ignore
            &&& answer matches Some(a) ==> frame::json(a) == remember::ack_json(f, keep is Store)
        },
        Received::KeepFallback => if pairing::hands_over_late(was.pair) {
            &&& r matches Act::HandOver { frame: a }
            &&& frame::json(a) == pairing::keep_json(was.pair.ceremony_secret@)
            &&& now_s == (RecvSession { pair: now_s.pair, ..was })
            &&& pairing::handed_over(was.pair, now_s.pair, pid)
        } else {
            r is Nothing && now_s == was
        },
        Received::KeepAck => {
            &&& r matches Act::Kept(a)
            &&& now_s == (RecvSession { pair: now_s.pair, ..was })
            &&& pairing::answered(
                was.pair,
                now_s.pair,
                pid,
                f,
                shared_defs::view_of(p.name),
                fresh_secret,
                a,
            )
        },
        Received::Proof => r matches Act::Proof { mac } && mac@ == offer::text_or(
            f,
            "mac"@,
            Seq::empty(),
        ),
        Received::Introduction => r matches Act::Introduced(i) && pairing::introduced(
            p.trusted,
            f,
            match p.name {
                Some(n) => n@,
                None => Seq::empty(),
            },
            i,
        ),
        Received::FileOffer => offered(was, now_s, pid, f, p, token, now, r),
        Received::FileEnd => ended(
            was,
            now_s,
            pid,
            shared_defs::low_half(offer::count_or_zero(f, "sid"@)),
            r,
        ),
        Received::Nothing => r is Nothing,
        _ => true,
    }
}

/// What signalling data asks for.
pub enum SignalStep {
    /// It waits until the sender is settled.
    Held,
    /// Take up this direct offer, and answer the probe where `probe`.
    Direct { offer: DirectOffer, probe: bool },
    /// Nothing.
    Ignore,
    /// Hand it to the ceremony of its sender, which is to begin now where `begin`.
    Ceremony { begin: bool },
    /// Let the link have it.
    Apply,
}

/// What signalling data makes of a receive: direct offers wait while nobody is settled, and
/// messages of a ceremony count only where a code was given and nobody is.
pub open spec fn signalled(
    was: RecvSession,
    now_s: RecvSession,
    from: Seq<char>,
    d: frame::Json,
    now: u64,
    r: SignalStep,
) -> bool {
    let a = was.candidates;
    let b = now_s.candidates;
    let t = d.text_at("type"@);
    let due = shared_defs::later(now, was.plan.budget);
    &&& now_s == (RecvSession { candidates: b, ..was })
    &&& if t == Some("transport-offer"@) {
        if a.settled {
            &&& r matches SignalStep::Direct { offer, probe }
            &&& candidates::describes_direct(d, offer)
            &&& probe == (d.flag_at("probe"@) == Some(true))
            &&& b == (Candidates { direct: b.direct, ..a })
            &&& b.direct@ == a.direct@
        } else {
            &&& r is Held
            &&& b == (Candidates { direct: b.direct, ..a })
            &&& b.direct@ == a.direct@.insert(from, b.direct@[from])
            &&& candidates::describes_direct(d, b.direct@[from])
        }
    } else if was.plan.code_path && (t == Some("pake-msg"@) || t == Some("pake-confirm"@)) {
        &&& r == (if !counts(a, from, false) {
            SignalStep::Ignore
        } else {
            SignalStep::Ceremony { begin: !a.runs(from) }
        })
        &&& entered(a, b, from, due, false)
    } else {
        r is Apply && b == a
    }
}

/// `pid` may be the sender: nobody is settled, and it is a candidate, or there is room for it and
/// it did not run out of time, unless its link has come up, where `up`.
pub open spec fn counts(a: Candidates, pid: Seq<char>, up: bool) -> bool {
    &&& !a.settled
    &&& a.runs(pid) || ((up || !a.dropped@.contains_key(pid)) && a.deadlines@.dom().len()
        < candidates::MAX_CANDIDATES)
}

/// What a peer that may be the sender makes of the candidates; `due` is when it would have to
/// have finished.
pub open spec fn entered(
    a: Candidates,
    b: Candidates,
    pid: Seq<char>,
    due: u64,
    up: bool,
) -> bool {
    let begins = counts(a, pid, up) && !a.runs(pid);
    &&& b == (Candidates { deadlines: b.deadlines, overall: b.overall, dropped: b.dropped, ..a })
    &&& b.deadlines@ == (if begins {
        a.deadlines@.insert(pid, due)
    } else {
        a.deadlines@
    })
    &&& b.dropped@ == (if begins {
        a.dropped@.remove(pid)
    } else {
        a.dropped@
    })
    &&& b.overall == (if counts(a, pid, up) && a.overall is None {
        Some(due)
    } else {
        a.overall
    })
}

/// What is known of a link that has come up.
#[derive(Clone, Copy, Debug, PartialEq, Eq, Structural)]
pub struct LinkView {
    /// It is still there.
    pub exists_: bool,
    /// It came with a secret.
    pub has_secret: bool,
    /// We are in a fleet.
    pub in_fleet: bool,
    /// It looks like a link of the fleet.
    pub shaped: bool,
}

/// What a link that has come up asks for.
#[derive(Clone, Copy, Debug, PartialEq, Eq, Structural)]
pub struct LinkUp {
    /// Prove ourselves to the peer.
    pub greet: bool,
    /// Begin a ceremony with it.
    pub begin: bool,
    /// What the pairing asks for.
    pub pair: LinkStep,
}

/// What a link to `pid` makes of a receive. A device of the fleet never takes part in a
/// pairing: the code was typed for somebody who is not known.
pub open spec fn came_up(
    was: RecvSession,
    now_s: RecvSession,
    pid: Seq<char>,
    l: LinkView,
    now: u64,
    r: LinkUp,
) -> bool {
    let proven = was.fleet.verified@.contains_key(pid);
    let awaited = was.fleet.pending@.contains_key(pid);
    let fresh = l.exists_ && !l.has_secret && !proven && !awaited && !r.greet;
    &&& r.greet == (!proven && l.in_fleet && (awaited || l.shaped))
    &&& r.begin == (counts(was.candidates, pid, true) && !was.candidates.runs(pid))
    &&& r.pair is Offer <==> fresh && pairing::hands_over_at_once(was.pair)
    &&& r.pair is Wait <==> fresh && pairing::hands_over_late(was.pair)
    &&& now_s == (RecvSession {
        fleet: now_s.fleet,
        candidates: now_s.candidates,
        pair: now_s.pair,
        ..was
    })
    &&& now_s.fleet == (FleetLinks { pending: now_s.fleet.pending, ..was.fleet })
    &&& now_s.fleet.pending@ == (if r.greet {
        was.fleet.pending@.insert(pid, ())
    } else {
        was.fleet.pending@
    })
    &&& entered(
        was.candidates,
        now_s.candidates,
        pid,
        shared_defs::later(now, was.plan.budget),
        true,
    )
    &&& if r.pair is Offer {
        pairing::handed_over(was.pair, now_s.pair, pid)
    } else {
        now_s.pair == was.pair
    }
}

/// What a line that the operator typed asks for.
pub enum Typed {
    /// It answers a question.
    Answer { answer: Answered, show: Show },
    /// It is a command.
    Command(Command),
}

impl RecvSession {
    /// The parts are in order, and without a code nobody has to be found.
    pub open spec fn wf(self) -> bool {
        &&& self.assembly.wf()
        &&& self.questions.wf()
        &&& self.candidates.wf()
        &&& self.fleet.wf()
        &&& self.holds.wf()
        &&& self.terminals.wf()
        &&& !self.plan.code_path ==> self.candidates.settled
    }

    /// A receive that begins.
    pub fn new(plan: RecvPlan, fresh_secret: &str, now: u64) -> (r: RecvSession)
        ensures
            r.wf(),
            r.plan == plan,
            r.assembly.files@.len() == 0,
            r.assembly.completed == 0,
            r.assembly.verify_fails@ == Map::<Seq<char>, u32>::empty(),
            r.questions.pending@.len() == 0,
            !r.questions.open,
            r.questions.shown == now,
            r.candidates.settled == !plan.code_path,
            r.candidates.deadlines@ == Map::<Seq<char>, u64>::empty(),
            r.candidates.offers@ == Map::<Seq<char>, serde_json::Value>::empty(),
            r.candidates.direct@ == Map::<Seq<char>, DirectOffer>::empty(),
            r.candidates.overall is None,
            r.candidates.dropped@ == Map::<Seq<char>, ()>::empty(),
            r.pair.paired == plan.code_path,
            !r.pair.claim_in_flight,
            r.pair.ceremony is None,
            r.pair.ceremony_pid is None,
            r.pair.ceremony_secret@ == fresh_secret@,
            forall|q: Seq<char>| #[trigger] r.fleet.knows_nothing_of(q),
            r.holds@ == Map::<Seq<char>, u64>::empty(),
            r.terminals@ == Map::<(Seq<char>, u32), Seq<char>>::empty(),
            r.quiet is None,
            r.stuck == 0,
            !r.received_before,
    {
        let code_path: bool = plan.code_path;
        RecvSession {
            plan,
            assembly: Assembly::new(),
            questions: Questions::new(now),
            candidates: Candidates::new(code_path),
            pair: PairSession::new(code_path, fresh_secret),
            fleet: FleetLinks::new(),
            holds: Keyed::new(),
            terminals: Terminals::new(),
            quiet: None,
            stuck: 0,
            received_before: false,
        }
    }

    fn file_offered(
        &mut self,
        pid: &str,
        f: &serde_json::Value,
        p: &PeerView,
        token: &str,
        now: u64,
    ) -> (r: Act)
        requires
            old(self).wf(),
            frame::json(*f) is Object,
        ensures
            final(self).wf(),
            offered(*old(self), *final(self), pid@, frame::json(*f), *p, token@, now, r),
    {
        if !p.ready {
            return Act::Nothing;
        }
        let s = Standing {
            code_path: self.plan.code_path,
            pake_done: self.candidates.settled,
            bound: p.bound,
            in_ceremony: self.candidates.deadlines.contains(pid),
            fleet_pending: p.undecided,
        };
        match arrive(f, token, &s) {
            Arrival::Ignore => Act::Nothing,
            Arrival::Buffer => {
                let _kept: bool = self.candidates.buffer_offer(pid, copy(f));
                Act::Held
            },
            Arrival::Defer => {
                let grace: u64 = self.plan.grace;
                self.fleet.defer(pid, copy(f), now, grace);
                Act::Held
            },
            Arrival::Consider(o) => Act::Look(o),
        }
    }

    fn stream_ended(&mut self, pid: &str, sid: u32) -> (r: Act)
        requires
            old(self).wf(),
        ensures
            final(self).wf(),
            ended(*old(self), *final(self), pid@, sid, r),
    {
        match self.assembly.file_end(pid, sid) {
            EndStep::Ready => Act::Complete { sid },
            EndStep::Unknown => Act::Nothing,
            EndStep::Deferred => Act::Nothing,
        }
    }

    /// A frame came from `pid` at `now`. `token` marks what the operator said yes to; `nonce` is
    /// the challenge that the frame holds, if it holds one; `fresh_secret` takes the place of a
    /// secret that is spent.
    pub fn hear(
        &mut self,
        pid: &str,
        f: &serde_json::Value,
        hello: &str,
        p: &PeerView,
        token: &str,
        nonce: Option<Vec<u8>>,
        fresh_secret: &str,
        now: u64,
    ) -> (r: Act)
        requires
            old(self).wf(),
        ensures
            final(self).wf(),
            acted(
                *old(self),
                *final(self),
                pid@,
                frame::json(*f),
                kind_of(*old(self), pid@, frame::json(*f), hello@, *p),
                *p,
                token@,
                nonce,
                fresh_secret@,
                now,
                r,
            ),
    {
        let view = ReceiverView {
            linked: p.linked,
            verified: self.fleet.verified.contains(pid),
            overlay: p.overlay,
            streams: self.plan.streams,
        };
        proof {
            reveal_strlit("");
            assert(""@ =~= Seq::<char>::empty());
        }
        let name: Option<&str> = match &p.name {
            Some(n) => Some(n.as_str()),
            None => None,
        };
        let k = received(f, hello, &view);
        match k {
            Received::Nothing => Act::Nothing,
            Received::Nonce => {
                let greet: bool = !view.verified;
                if self.fleet.their_nonce(pid, nonce) {
                    Act::Announce { greet }
                } else {
                    Act::Nothing
                }
            },
            Received::Hello => Act::Check,
            Received::Rendezvous => match self.fleet.rendezvous(pid, f) {
                Some(secret) => Act::Meet { secret },
                None => Act::Nothing,
            },
            Received::Announce => if hears_announce(p.overlay, p.undecided) {
                Act::Address
            } else {
                Act::Nothing
            },
            Received::WorkerPorts => Act::Workers {
                peer: text_member(f, "for", ""),
                ports: worker_ports(f),
            },
            Received::PtyResize => match parse_resize(f) {
                Some(z) => {
                    let shows: Option<String> = match self.terminals.session(pid, z.sid) {
                        Some(s) => Some(s.to_owned()),
                        None => None,
                    };
                    Act::Resize { sid: z.sid, shows, cols: z.cols, rows: z.rows }
                },
                None => Act::Nothing,
            },
            Received::PtyClose => {
                let device: Option<&str> = match &p.device {
                    Some(d) => Some(d.as_str()),
                    None => None,
                };
                match session_name(f, device, pid) {
                    Some(session) => {
                        self.terminals.end(pid, session.as_str());
                        Act::End { session }
                    },
                    None => Act::Nothing,
                }
            },
            Received::Away => Act::Away { secs: away_secs(f) },
            Received::Back => Act::Back,
            Received::State => Act::Back,
            Received::Keep => {
                let wish: Option<&str> = match &self.plan.remember {
                    Some(n) => Some(n.as_str()),
                    None => None,
                };
                let keep = self.pair.keep_offered(f, wish, self.plan.yes, name);
                let answer = keep_answer(f, &keep);
                Act::Keep { keep, answer }
            },
            Received::KeepFallback => if self.pair.fallback(pid) {
                Act::HandOver { frame: keep_frame(self.pair.ceremony_secret.as_str()) }
            } else {
                Act::Nothing
            },
            Received::KeepAck => Act::Kept(self.pair.keep_acked(pid, f, name, fresh_secret)),
            Received::Proof => Act::Proof { mac: text_member(f, "mac", "") },
            Received::Introduction => {
                let hub: &str = match name {
                    Some(n) => n,
                    None => "",
                };
                Act::Introduced(introduction(p.trusted, f, hub))
            },
            Received::FileOffer => self.file_offered(pid, f, p, token, now),
            Received::FileEnd => self.stream_ended(pid, truncate(count_member(f, "sid"))),
            _ => Act::Serve(k),
        }
    }

    /// Signalling data came from `from`.
    pub fn signal(&mut self, from: &str, data: &serde_json::Value, now: u64) -> (r: SignalStep)
        requires
            old(self).wf(),
        ensures
            final(self).wf(),
            signalled(*old(self), *final(self), from@, frame::json(*data), now, r),
    {
        let direct: bool = match text_at(data, "type") {
            Some(t) => same(t, "transport-offer"),
            None => false,
        };
        if direct {
            return match self.candidates.buffer_direct(from, parse_direct(data)) {
                Some(offer) => SignalStep::Direct { offer, probe: asks_probe(data) },
                None => SignalStep::Held,
            };
        }
        if self.plan.code_path && is_ceremony(data) {
            return match self.candidates.enter(from, now, self.plan.budget, false) {
                Admission::Settled => SignalStep::Ignore,
                Admission::Full => SignalStep::Ignore,
                Admission::Dropped => SignalStep::Ignore,
                Admission::Known => SignalStep::Ceremony { begin: false },
                Admission::New => SignalStep::Ceremony { begin: true },
            };
        }
        SignalStep::Apply
    }

    /// A link to `pid` has come up.
    pub fn link_up(&mut self, pid: &str, l: &LinkView, now: u64) -> (r: LinkUp)
        requires
            old(self).wf(),
        ensures
            final(self).wf(),
            came_up(*old(self), *final(self), pid@, *l, now, r),
    {
        let greet: bool = self.fleet.link_up(pid, l.in_fleet, l.shaped);
        let begin: bool = match self.candidates.enter(pid, now, self.plan.budget, true) {
            Admission::New => true,
            _ => false,
        };
        let pending: bool = self.fleet.pending.contains(pid);
        let verified: bool = self.fleet.verified.contains(pid);
        let fresh: bool = fresh_link(l.exists_, l.has_secret, pending, verified);
        let pair = self.pair.link_up(pid, fresh);
        LinkUp { greet, begin, pair }
    }

    /// The file of a stream whose writes are done is delivered, given up or fetched again, by
    /// the verdict on it. The first file takes the name that was asked for, if one was.
    pub fn settle(&mut self, pid: &str, sid: u32, verdict: VerifyResult) -> (r: (
        Settled,
        Option<String>,
    ))
        requires
            old(self).wf(),
            old(self).assembly.completed < u64::MAX,
        ensures
            final(self).wf(),
            *final(self) == (RecvSession { assembly: final(self).assembly, ..*old(self) }),
            r.0 is Unknown <==> !assembly::arriving(old(self).assembly.files@, pid@, sid),
            r.0 is Unknown ==> *final(self) == *old(self),
            r.0 !is Unknown ==> exists|i: int| #[trigger]
                assembly::is_at(old(self).assembly.files@, pid@, sid, i) && assembly::settles(
                    old(self).assembly,
                    final(self).assembly,
                    i,
                    old(self).plan.is_to_stdout(),
                    verdict,
                    r.0,
                ),
            shared_defs::view_of(r.1) == (if r.0 is Place && old(self).assembly.completed == 0 {
                shared_defs::view_of(old(self).plan.output)
            } else {
                None
            }),
    {
        let to_stdout: bool = self.plan.to_stdout();
        let settled = self.assembly.settle(pid, sid, to_stdout, verdict);
        let name: Option<String> = match &settled {
            Settled::Place { .. } => if self.assembly.completed == 0 {
                match &self.plan.output {
                    Some(o) => Some(o.clone()),
                    None => None,
                }
            } else {
                None
            },
            _ => None,
        };
        (settled, name)
    }

    /// The operator typed a line. While a question is open it is the answer to that.
    pub fn typed(
        &mut self,
        line: &str,
        is_code: bool,
        devices: &Vec<String>,
        token: &str,
        now: u64,
    ) -> (r: Typed)
        requires
            old(self).wf(),
        ensures
            final(self).wf(),
            if old(self).questions.pending@.len() > 0 {
                &&& *final(self) == (RecvSession { questions: final(self).questions, ..*old(self) })
                &&& r matches Typed::Answer { answer, show }
                &&& console::answered(
                    old(self).questions,
                    final(self).questions,
                    text::lowercase(line@),
                    token@,
                    now,
                    answer,
                    show,
                )
            } else {
                &&& *final(self) == (RecvSession { pair: final(self).pair, ..*old(self) })
                &&& r matches Typed::Command(c)
                &&& pairing::commanded(
                    old(self).pair,
                    final(self).pair,
                    text::lowercase(line@),
                    line@.len() == 0,
                    is_code,
                    devices@,
                    old(self).plan.daemon,
                    c,
                )
            },
    {
        if self.questions.pending.len() > 0 {
            let (answer, show) = self.questions.answer(line, token, now);
            return Typed::Answer { answer, show };
        }
        let daemon: bool = self.plan.daemon;
        Typed::Command(self.pair.command(line, is_code, devices, daemon))
    }

    /// Note whether anything has come. Tells whether everything has that was to come.
    pub fn take_stock(&mut self) -> (r: bool)
        requires
            old(self).wf(),
        ensures
            final(self).wf(),
            r == finish::all_received(
                old(self).assembly.completed,
                old(self).plan.keep_open,
                old(self).assembly.files@.len() == 0,
            ),
            *final(self) == (RecvSession {
                received_before: old(self).received_before || old(self).assembly.completed > 0
                    || old(self).assembly.files@.len() > 0,
                ..*old(self)
            }),
    {
        let idle: bool = self.assembly.files.len() == 0;
        if self.assembly.completed > 0 || !idle {
            self.received_before = true;
        }
        recv_transfer_done(self.assembly.completed, self.plan.keep_open, idle)
    }

    /// There is nothing left to wait for but peers.
    pub open spec fn is_settled(self) -> bool {
        finish::all_received(
            self.assembly.completed,
            self.plan.keep_open,
            self.assembly.files@.len() == 0,
        ) && self.questions.pending@.len() == 0
    }

    /// Whether the receiver is done, given whether there are links, whether they are only held
    /// until they may be dropped, and whether one is up.
    pub fn leave(&mut self, linked: bool, only_deferred: bool, healthy: bool, now: u64) -> (r: ExitStep)
        requires
            old(self).wf(),
        ensures
            final(self).wf(),
            *final(self) == (RecvSession { quiet: final(self).quiet, ..*old(self) }),
            r is Done <==> old(self).is_settled() && (!linked || only_deferred),
            r is DoneQuiet <==> old(self).is_settled() && linked && !only_deferred && !healthy && (
            match old(self).quiet {
                Some(t) => shared_defs::since(now, t) > old(self).plan.window,
                None => false,
            }),
            final(self).quiet == (if r !is Stay {
                old(self).quiet
            } else if old(self).is_settled() && !healthy {
                match old(self).quiet {
                    Some(t) => Some(t),
                    None => Some(now),
                }
            } else {
                None
            }),
    {
        let view = ExitView {
            completed: self.assembly.completed,
            keep_open: self.plan.keep_open,
            idle: self.assembly.files.len() == 0,
            asking: self.questions.pending.len() > 0,
            linked,
            only_deferred,
            healthy,
        };
        let window: u64 = self.plan.window;
        exit_step(&view, &mut self.quiet, window, now)
    }

    /// A peer left. Where it did so in the middle of a transfer what has come is parked.
    pub fn left(&mut self) -> (r: LeftStep)
        requires
            old(self).wf(),
        ensures
            final(self).wf(),
            r is Park <==> old(self).assembly.files@.len() > 0,
            r is Done <==> finish::all_received(
                old(self).assembly.completed,
                old(self).plan.keep_open,
                old(self).assembly.files@.len() == 0,
            ),
            r is Hold <==> old(self).assembly.files@.len() == 0 && old(self).assembly.completed == 0
                && old(self).pair.paired && !old(self).plan.keep_open,
            *final(self) == (RecvSession { assembly: final(self).assembly, ..*old(self) }),
            final(self).assembly == (Assembly { files: final(self).assembly.files, ..old(self).assembly }),
            final(self).assembly.files@.len() == 0,
    {
        let arriving: bool = self.assembly.files.len() > 0;
        let step = peer_left(
            arriving,
            self.assembly.completed,
            self.plan.keep_open,
            self.pair.paired,
        );
        if arriving {
            self.assembly.park_all();
        }
        step
    }

    /// A link got stuck; `dropped` where it was given up for good. Tells why the receive fails,
    /// if it does: its sender is lost and nothing was delivered.
    pub fn lost(&self, dropped: bool) -> (r: Option<String>)
        ensures
            r is Some <==> dropped && self.pair.paired && !self.plan.keep_open
                && self.assembly.completed == 0,
            r matches Some(s) ==> s@ == finish::lost_text(),
    {
        lost_sender(dropped, self.pair.paired, self.plan.keep_open, self.assembly.completed)
    }

    /// A link got stuck while it was made. Tells whether to hint at a local cause: from the
    /// second time on, where nothing has come.
    pub fn got_stuck(&mut self) -> (r: bool)
        requires
            old(self).wf(),
        ensures
            final(self).wf(),
            *final(self) == (RecvSession { stuck: final(self).stuck, ..*old(self) }),
            final(self).stuck == (if old(self).received_before || old(self).stuck == u32::MAX {
                old(self).stuck
            } else {
                (old(self).stuck + 1) as u32
            }),
            r == (!old(self).received_before && final(self).stuck >= 2),
    {
        let before: bool = self.received_before;
        stuck_again(&mut self.stuck, before)
    }
}

/// Where a code was given, no offer is looked at but one of the peer that proved to hold it.
pub proof fn only_the_code_holder_is_looked_at(
    was: RecvSession,
    now_s: RecvSession,
    pid: Seq<char>,
    f: frame::Json,
    k: Received,
    p: PeerView,
    token: Seq<char>,
    nonce: Option<Vec<u8>>,
    fresh_secret: Seq<char>,
    now: u64,
    r: Act,
)
    requires
        acted(was, now_s, pid, f, k, p, token, nonce, fresh_secret, now, r),
        was.plan.code_path,
        !(was.candidates.settled && p.bound),
    ensures
        r !is Look,
{
}

/// A frame alone delivers nothing, opens no stream for a file, answers no question of the
/// operator and settles nobody as the sender, whoever sends it and whatever it says.
pub proof fn hearing_decides_nothing(
    was: RecvSession,
    now_s: RecvSession,
    pid: Seq<char>,
    f: frame::Json,
    k: Received,
    p: PeerView,
    token: Seq<char>,
    nonce: Option<Vec<u8>>,
    fresh_secret: Seq<char>,
    now: u64,
    r: Act,
)
    requires
        acted(was, now_s, pid, f, k, p, token, nonce, fresh_secret, now, r),
    ensures
        now_s.assembly.completed == was.assembly.completed,
        now_s.assembly.files@.len() == was.assembly.files@.len(),
        now_s.questions == was.questions,
        now_s.candidates.settled == was.candidates.settled,
        now_s.fleet.verified == was.fleet.verified,
        now_s.plan == was.plan,
{
}

/// An offer that waits for its sender's ceremony is what the sender is asked about once it has
/// finished, and one that waits for its sender's proof is looked at once that is given.
pub proof fn held_offer_comes_back(
    was: RecvSession,
    now_s: RecvSession,
    pid: Seq<char>,
    f: frame::Json,
    k: Received,
    p: PeerView,
    token: Seq<char>,
    nonce: Option<Vec<u8>>,
    fresh_secret: Seq<char>,
    now: u64,
    r: Act,
)
    requires
        acted(was, now_s, pid, f, k, p, token, nonce, fresh_secret, now, r),
        r is Held,
    ensures
        standing(was, pid, p).authenticated() ==> {
            let back = fleet_links::picks(now_s.fleet.deferred@, Some(pid), 0);
            back.len() > 0 && frame::json(back.last().offer) == f
        },
        !standing(was, pid, p).authenticated() ==> (candidates::lookup(
            now_s.candidates.offers@,
            pid,
        ) matches Some(v) && frame::json(v) == f),
{
}

/// A device of the fleet is handed no secret of a pairing when its link comes up.
pub proof fn fleet_takes_no_part_in_pairing(
    was: RecvSession,
    now_s: RecvSession,
    pid: Seq<char>,
    l: LinkView,
    now: u64,
    r: LinkUp,
)
    requires
        came_up(was, now_s, pid, l, now, r),
        was.fleet.verified@.contains_key(pid) || was.fleet.pending@.contains_key(pid) || (l.in_fleet
            && l.shaped),
    ensures
        r.pair is Nothing,
        now_s.pair == was.pair,
{
}

/// What a peer signals whose ceremony ran out of time begins no second one.
pub proof fn overdue_messages_begin_nothing(
    was: RecvSession,
    now_s: RecvSession,
    pid: Seq<char>,
    d: frame::Json,
    now: u64,
    r: SignalStep,
)
    requires
        was.wf(),
        was.candidates.dropped@.contains_key(pid),
        signalled(was, now_s, pid, d, now, r),
    ensures
        r !is Ceremony,
        !now_s.candidates.runs(pid),
        now_s.candidates.dropped@ == was.candidates.dropped@,
{
}

/// A peer whose link comes up may be the sender, whatever became of an earlier ceremony with it,
/// as long as nobody is settled and there is room: it runs a ceremony then.
pub proof fn a_link_gives_another_chance(
    was: RecvSession,
    now_s: RecvSession,
    pid: Seq<char>,
    l: LinkView,
    now: u64,
    r: LinkUp,
)
    requires
        came_up(was, now_s, pid, l, now, r),
        !was.candidates.settled,
        was.candidates.deadlines@.dom().len() < candidates::MAX_CANDIDATES,
    ensures
        now_s.candidates.runs(pid),
        r.begin == !was.candidates.runs(pid),
{
}

/// A peer ends the very session that it opened under the same name: whatever stream it was
/// attached to, it is that session which is ended, and none of the peer's streams shows it any
/// more. Streams of other links keep what they show.
pub proof fn closing_ends_what_was_opened(
    was: RecvSession,
    now_s: RecvSession,
    pid: Seq<char>,
    open: frame::Json,
    close: frame::Json,
    p: PeerView,
    token: Seq<char>,
    nonce: Option<Vec<u8>>,
    fresh_secret: Seq<char>,
    now: u64,
    r: Act,
    sid: u32,
)
    requires
        acted(
            was,
            now_s,
            pid,
            close,
            Received::PtyClose,
            p,
            token,
            nonce,
            fresh_secret,
            now,
            r,
        ),
        open.text_at("session"@) == close.text_at("session"@),
        open.text_at("session"@) matches Some(s) && streams::good_session(s),
    ensures
        ({
            let key = streams::session_of(open, shared_defs::view_of(p.device), pid, sid);
            &&& r matches Act::End { session } && session@ == key
            &&& forall|n: u32|
                #![trigger now_s.terminals@.contains_key((pid, n))]
                now_s.terminals@.contains_key((pid, n)) ==> now_s.terminals@[(pid, n)] != key
            &&& forall|q: Seq<char>, n: u32|
                #![trigger now_s.terminals@.contains_key((q, n))]
                q != pid ==> now_s.terminals@.contains_key((q, n)) == was.terminals@.contains_key(
                    (q, n),
                )
        }),
{
}

} // verus!
