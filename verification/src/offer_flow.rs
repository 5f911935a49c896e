//! A file offer on its way from the frame to the first byte: whether its sender may offer at
//! all, whether the answer has to wait, what the answer is, and what is made ready for it.

use vstd::prelude::*;
use vstd::string::*;
use crate::assembly;
use crate::assembly::Assembly;
use crate::frame;
use crate::keyed::Keyed;
use crate::offer;
use crate::offer::{
    decide_offer, effective_full, identity_hold, legacy_ok, offer_gate, parse_offer, resume_point,
    Decision, FileOffer, Gate, GateOutcome, IdentityState, PartFound, Standing,
};
use crate::protocol;
use crate::protocol::{accept_msg, decline_msg};
use crate::shared_defs;
use crate::shared_defs::PartMeta;
use crate::text::{cat, cat3};

verus! {

/// What an offer that came is to us.
pub enum Arrival {
    /// Keep it until the sender's ceremony is over.
    Buffer,
    /// Drop it.
    Ignore,
    /// Keep it until the sender's fleet identity is known.
    Defer,
    /// Look at it.
    Consider(FileOffer),
}

/// An offer has come.
pub fn arrive(v: &serde_json::Value, token: &str, s: &Standing) -> (r: Arrival)
    ensures
        r is Buffer <==> !s.authenticated() && !s.pake_done && s.in_ceremony,
        r is Ignore <==> !s.authenticated() && (s.pake_done || !s.in_ceremony),
        r is Defer <==> s.authenticated() && !offer::has_waited(frame::json(*v)) && s.fleet_pending,
        r matches Arrival::Consider(o) ==> s.authenticated() && offer::describes(
            frame::json(*v),
            token@,
            o,
        ),
{
    match offer_gate(s, v) {
        Gate::Buffer => Arrival::Buffer,
        Gate::Ignore => Arrival::Ignore,
        Gate::Defer => Arrival::Defer,
        Gate::Consider => Arrival::Consider(parse_offer(v, token)),
    }
}

/// How this receiver takes offers.
#[derive(Clone, Copy, Debug, PartialEq, Eq, Structural)]
pub struct Taking {
    /// It runs as a daemon.
    pub daemon: bool,
    /// The operator says yes to everything.
    pub yes: bool,
    /// Capabilities decide.
    pub authoritative: bool,
    /// There is an operator at a terminal.
    pub tty: bool,
    /// Files go to the standard output.
    pub to_stdout: bool,
}

/// What an offer weighs.
pub struct Weighed {
    /// How many bytes of the file are there.
    pub offset: u64,
    /// The digest kept with them.
    pub prior: Option<String>,
    /// The offer is fit to be accepted, as far as capabilities do not say otherwise.
    pub fit: bool,
}

/// A partial file that belongs to the offer was found.
pub open spec fn resumes(part: Option<PartFound>, o: FileOffer) -> bool {
    part is Some && offer::belongs(part->0, o.size, shared_defs::view_of(o.head))
}

/// Weigh an offer of `pid`, where `part` is what there is under its name, or let it wait for its
/// sender's identity (nothing is returned then).
pub fn weigh(
    o: &FileOffer,
    part: Option<PartFound>,
    holds: &mut Keyed<u64>,
    pid: &str,
    code_path: bool,
    trusted: bool,
    id: &IdentityState,
    t: &Taking,
    now: u64,
) -> (r: Option<Weighed>)
    requires
        old(holds).wf(),
    ensures
        final(holds).wf(),
        r is None <==> waits(old(holds)@, pid@, code_path, t.authoritative, *id, now),
        final(holds)@ == (if offer::unknown_over_code(code_path, *id) && id.link_ready && !old(
            holds,
        )@.contains_key(pid@) {
            old(holds)@.insert(pid@, now)
        } else {
            old(holds)@
        }),
        r matches Some(w) ==> w.offset <= o.size && (if resumes(part, *o) {
            w.offset == part->0.len && w.prior == part->0.meta->0.full
        } else {
            w.offset == 0 && w.prior is None
        }) && w.fit == (if t.daemon {
            trusted
        } else {
            t.yes || o.consented || trusted || (o.resume && w.offset > 0)
        }),
{
    if identity_hold(holds, pid, code_path, t.authoritative, id, now) {
        return None;
    }
    let (offset, prior) = resume_point(part, o.size, &o.head);
    let fit: bool = legacy_ok(t.daemon, t.yes, o.consented, trusted, o.resume, offset);
    Some(Weighed { offset, prior, fit })
}

/// An offer waits for its sender's identity.
pub open spec fn waits(
    holds: Map<Seq<char>, u64>,
    pid: Seq<char>,
    code_path: bool,
    authoritative: bool,
    id: IdentityState,
    now: u64,
) -> bool {
    if offer::unknown_over_code(code_path, id) {
        !id.link_ready || !holds.contains_key(pid) || shared_defs::since(now, holds[pid])
            < offer::IDENTITY_HOLD
    } else {
        authoritative && id.challenged && !id.proven
    }
}

/// The answer to an offer.
pub enum Reply {
    /// Decline it with this frame and say so; where `request` is set, note that the peer may be
    /// granted the transfer.
    Decline { frame: serde_json::Value, line: String, request: bool },
    /// Ask the operator.
    Ask,
    /// It is on its way already: say so and leave it.
    Duplicate { line: String },
    /// Stream it to the standard output.
    Stream,
    /// Open its partial file: where it is there, and otherwise anew, with `meta` kept beside
    /// it.
    Open { resume: bool, full: Option<String>, meta: Option<PartMeta> },
}

/// Answer an offer that was weighed; `gate` is what the capabilities say of it. Streams into the
/// same partial file that stalled give way to it, one that flows does not.
pub fn reply(
    o: &FileOffer,
    name: &str,
    part_path: &str,
    sender: &str,
    w: &Weighed,
    gate: &GateOutcome,
    t: &Taking,
    a: &mut Assembly,
    flowing: &Vec<String>,
) -> (r: Reply)
    requires
        old(a).wf(),
    ensures
        final(a).wf(),
        final(a).completed == old(a).completed,
        final(a).verify_fails == old(a).verify_fails,
        ({
            let let_in = gate.hard_reason is None && gate.allowed;
            let busy = assembly::flowing_into(old(a).files@, part_path@, flowing@);
            &&& r is Ask <==> gate.hard_reason is None && !gate.allowed && !t.daemon && t.tty
                && gate.reason is None
            &&& r is Stream <==> let_in && t.to_stdout
            &&& r is Duplicate <==> let_in && !t.to_stdout && busy
            &&& r is Open <==> let_in && !t.to_stdout && !busy
            &&& r is Open ==> final(a).files@ == assembly::kept(
                old(a).files@,
                assembly::not_into(part_path@),
            )
            &&& r is Open ==> assembly::free_part(final(a).files@, part_path@)
            &&& r !is Open ==> final(a).files@ == old(a).files@
            &&& r matches Reply::Decline { frame: f, line, request } ==> frame::json(f)
                == protocol::decline_json(o.id@) && request == (gate.hard_reason is Some && t.daemon)
                && line@ == offer::declined_line(
                name@,
                sender@,
                match gate.hard_reason {
                    Some(why) => why@,
                    None => offer::soft_reason(gate.reason, t.daemon),
                },
            )
            &&& r matches Reply::Duplicate { line } ==> line@ == "  (duplicate offer for "@ + name@
                + " ignored, already receiving it)"@
            &&& r matches Reply::Open { resume, full, meta } ==> {
                &&& resume == (w.offset > 0)
                &&& shared_defs::view_of(full) == best_digest(*o, *w)
                &&& meta is Some <==> !resume
                &&& meta matches Some(m) ==> m.size == o.size && shared_defs::view_of(m.head)
                    == shared_defs::view_of(o.head) && shared_defs::view_of(m.full) == best_digest(
                    *o,
                    *w,
                )
            }
        }),
{
    match decide_offer(gate, name, sender, t.daemon, t.tty) {
        Decision::Decline { line, request } => Reply::Decline {
            frame: decline_msg(o.id.as_str()),
            line,
            request,
        },
        Decision::Ask => Reply::Ask,
        Decision::Accept => {
            if t.to_stdout {
                return Reply::Stream;
            }
            let ghost was = a.files@;
            if !a.make_way(part_path, flowing) {
                return Reply::Duplicate {
                    line: cat3(
                        "  (duplicate offer for ",
                        name,
                        " ignored, already receiving it)",
                    ),
                };
            }
            proof {
                assembly::way_made_means_no_stream(was, part_path@);
            }
            let full = effective_full(copied(&o.full), copied(&w.prior));
            let meta = if w.offset > 0 {
                None
            } else {
                Some(PartMeta { size: o.size, head: copied(&o.head), full: copied(&full) })
            };
            Reply::Open { resume: w.offset > 0, full, meta }
        },
    }
}

/// The digest to compare on completion: the offer's, else the one kept with the partial.
pub open spec fn best_digest(o: FileOffer, w: Weighed) -> Option<Seq<char>> {
    match o.full {
        Some(f) => Some(f@),
        None => shared_defs::view_of(w.prior),
    }
}

fn copied(s: &Option<String>) -> (r: Option<String>)
    ensures
        shared_defs::view_of(r) == shared_defs::view_of(*s),
{
    match s {
        Some(t) => Some(t.clone()),
        None => None,
    }
}

/// The partial file of an accepted offer is open: its bytes may come. Returns the frame that
/// accepts it.
pub fn begin(
    a: &mut Assembly,
    pid: &str,
    o: &FileOffer,
    name: &str,
    part_path: &str,
    offset: u64,
    full: Option<String>,
) -> (r: serde_json::Value)
    requires
        old(a).wf(),
        assembly::free_part(old(a).files@, part_path@),
    ensures
        final(a).wf(),
        final(a).completed == old(a).completed,
        final(a).verify_fails == old(a).verify_fails,
        final(a).files@.len() > 0,
        assembly::others_stay(old(a).files@, final(a).files@, pid@, o.sid),
        assembly::starts(
            final(a).files@.last(),
            pid@,
            o.sid,
            o.id@,
            name@,
            o.size,
            offset,
            part_path@,
            full,
        ),
        frame::json(r) == protocol::accept_json(o.id@, offset),
{
    a.begin(pid, o.sid, o.id.as_str(), name, o.size, offset, part_path, full);
    accept_msg(o.id.as_str(), offset)
}

/// An accepted offer to the standard output: its bytes may come from the start, and there is no
/// digest to compare, for what was written cannot be read again.
pub fn begin_stream(a: &mut Assembly, pid: &str, o: &FileOffer, name: &str) -> (r: serde_json::Value)
    requires
        old(a).wf(),
    ensures
        final(a).wf(),
        final(a).completed == old(a).completed,
        final(a).verify_fails == old(a).verify_fails,
        final(a).files@.len() > 0,
        assembly::others_stay(old(a).files@, final(a).files@, pid@, o.sid),
        assembly::starts(
            final(a).files@.last(),
            pid@,
            o.sid,
            o.id@,
            name@,
            o.size,
            0,
            Seq::empty(),
            None,
        ),
        frame::json(r) == protocol::accept_json(o.id@, 0),
{
    proof {
        reveal_strlit("");
        assert(""@ =~= Seq::<char>::empty());
    }
    begin(a, pid, o, name, "", 0, None)
}

/// The file under which the bytes of `name` are kept until it is whole, and what is kept beside
/// it.
pub fn part_names(name: &str) -> (r: (String, String))
    ensures
        r.0@ == name@ + ".part"@,
        r.1@ == name@ + ".part.meta"@,
{
    (cat(name, ".part"), cat(name, ".part.meta"))
}

} // verus!
