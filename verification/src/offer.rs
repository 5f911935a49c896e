//! A file offer, from the frame that carries it to the decision on it.

use vstd::prelude::*;
use vstd::string::*;
use crate::frame;
use crate::frame::{count_at, flag_at, text_at};
use crate::keyed::Keyed;
use crate::shared_defs;
use crate::shared_defs::{elapsed, truncate, PartMeta};
use crate::text::{cat5, same};

verus! {

/// How long an offer over a typed code waits for the sender's identity, once the link
/// is up.
pub const IDENTITY_HOLD: u64 = 20_000_000_000;

/// Whether an offer may be looked at.
#[derive(Clone, Copy, Debug, PartialEq, Eq, Structural)]
pub enum Gate {
    /// Keep it until the sender's ceremony is over.
    Buffer,
    /// Its sender has not authenticated: drop it.
    Ignore,
    /// Keep it until the sender's fleet identity is known.
    Defer,
    /// Look at it.
    Consider,
}

/// What is known of the peer that sent an offer.
pub struct Standing {
    /// We were given a code to type.
    pub code_path: bool,
    /// Some peer has proved that it knows the code.
    pub pake_done: bool,
    /// This is that peer.
    pub bound: bool,
    /// A ceremony with this peer is under way.
    pub in_ceremony: bool,
    /// This peer's fleet identity is still being verified.
    pub fleet_pending: bool,
}

impl Standing {
    /// Bytes may come from this peer: without a code from any, with one only from the
    /// peer that proved that it knows it.
    pub open spec fn authenticated(self) -> bool {
        !self.code_path || (self.pake_done && self.bound)
    }
}

/// An offer has waited for its sender's fleet identity once already.
pub open spec fn has_waited(v: frame::Json) -> bool {
    v.flag_at("__fleet_waited"@) == Some(true)
}

/// Whether an offer may be looked at.
pub fn offer_gate(s: &Standing, v: &serde_json::Value) -> (r: Gate)
    ensures
        r is Buffer <==> !s.authenticated() && !s.pake_done && s.in_ceremony,
        r is Ignore <==> !s.authenticated() && (s.pake_done || !s.in_ceremony),
        r is Defer <==> s.authenticated() && !has_waited(frame::json(*v)) && s.fleet_pending,
{
    if s.code_path && (!s.pake_done || !s.bound) {
        if !s.pake_done && s.in_ceremony {
            return Gate::Buffer;
        }
        return Gate::Ignore;
    }
    let waited: bool = match flag_at(v, "__fleet_waited") {
        Some(true) => true,
        _ => false,
    };
    if !waited && s.fleet_pending {
        return Gate::Defer;
    }
    Gate::Consider
}

/// Once one peer has proved that it knows the code, no offer of another is looked at.
pub proof fn only_the_bound_peer_delivers(s: Standing)
    requires
        s.code_path,
        !s.bound,
    ensures
        !s.authenticated(),
{
}

/// A file offer as its sender describes it.
pub struct FileOffer {
    pub id: String,
    pub sid: u32,
    /// The name as sent, not yet fit to be a file name.
    pub raw_name: String,
    pub size: u64,
    /// The digest of the head.
    pub head: Option<String>,
    /// The digest of the whole.
    pub full: Option<String>,
    /// The sender takes up a transfer that was accepted before.
    pub resume: bool,
    /// The operator has said yes to this very offer.
    pub consented: bool,
}

/// A text member, or `default`.
pub open spec fn text_or(v: frame::Json, key: Seq<char>, default: Seq<char>) -> Seq<char> {
    match v.text_at(key) {
        Some(s) => s,
        None => default,
    }
}

/// A number member, or zero.
pub open spec fn count_or_zero(v: frame::Json, key: Seq<char>) -> u64 {
    match v.count_at(key) {
        Some(n) => n,
        None => 0,
    }
}

/// The offer that a frame describes.
pub open spec fn describes(v: frame::Json, token: Seq<char>, o: FileOffer) -> bool {
    &&& o.id@ == text_or(v, "id"@, Seq::empty())
    &&& o.sid == shared_defs::low_half(count_or_zero(v, "sid"@))
    &&& o.raw_name@ == text_or(v, "name"@, "file.bin"@)
    &&& o.size == count_or_zero(v, "size"@)
    &&& shared_defs::view_of(o.head) == v.text_at("head"@)
    &&& shared_defs::view_of(o.full) == v.text_at("full"@)
    &&& o.resume == (v.flag_at("resume"@) == Some(true))
    &&& o.consented == (v.text_at("__consent"@) == Some(token))
}

/// The text member under `key`, or `default`.
pub fn text_member(v: &serde_json::Value, key: &str, default: &str) -> (r: String)
    ensures
        r@ == text_or(frame::json(*v), key@, default@),
{
    match text_at(v, key) {
        Some(s) => s.to_owned(),
        None => default.to_owned(),
    }
}

/// The text member under `key`, if there is one.
pub fn optional_text(v: &serde_json::Value, key: &str) -> (r: Option<String>)
    ensures
        shared_defs::view_of(r) == frame::json(*v).text_at(key@),
{
    match text_at(v, key) {
        Some(s) => Some(s.to_owned()),
        None => None,
    }
}

/// The number member under `key`, or zero.
pub fn count_member(v: &serde_json::Value, key: &str) -> (r: u64)
    ensures
        r == count_or_zero(frame::json(*v), key@),
{
    match count_at(v, key) {
        Some(n) => n,
        None => 0,
    }
}

/// Read a file offer. `token` marks offers that this process has put the question
/// about, so that no peer can claim consent.
pub fn parse_offer(v: &serde_json::Value, token: &str) -> (r: FileOffer)
    ensures
        describes(frame::json(*v), token@, r),
{
    let id = text_member(v, "id", "");
    proof {
        reveal_strlit("");
        assert(""@ =~= Seq::<char>::empty());
    }
    FileOffer {
        id,
        sid: truncate(count_member(v, "sid")),
        raw_name: text_member(v, "name", "file.bin"),
        size: count_member(v, "size"),
        head: optional_text(v, "head"),
        full: optional_text(v, "full"),
        resume: match flag_at(v, "resume") {
            Some(b) => b,
            None => false,
        },
        consented: match text_at(v, "__consent") {
            Some(t) => same(t, token),
            None => false,
        },
    }
}

/// A partial file found under the name of an offer.
pub struct PartFound {
    /// Its length.
    pub len: u64,
    /// What is kept beside it, if that can be read.
    pub meta: Option<PartMeta>,
}

/// A partial file belongs to an offer: what is kept beside it is of the offered size, it
/// is no longer than that, and the heads agree where both are known.
pub open spec fn belongs(part: PartFound, size: u64, head: Option<Seq<char>>) -> bool {
    &&& part.meta matches Some(m)
    &&& m.size == size
    &&& part.len <= size
    &&& m.head is None || head is None || m.head->0@ == head->0
}

/// Where to take up a transfer: after what a partial file that belongs to the offer
/// holds, and with the digest kept beside it; otherwise at the start.
pub fn resume_point(part: Option<PartFound>, size: u64, head: &Option<String>) -> (r: (
    u64,
    Option<String>,
))
    ensures
        part is Some && belongs(part->0, size, shared_defs::view_of(*head)) ==> r.0 == part->0.len
            && r.1 == part->0.meta->0.full,
        !(part is Some && belongs(part->0, size, shared_defs::view_of(*head))) ==> r.0 == 0 && r.1
            is None,
        r.0 <= size,
{
    match part {
        Some(PartFound { len, meta: Some(m) }) => {
            if m.size == size && len <= size {
                let head_ok: bool = match (&m.head, head) {
                    (Some(a), Some(b)) => same(a.as_str(), b.as_str()),
                    _ => true,
                };
                if head_ok {
                    return (len, m.full);
                }
            }
            (0, None)
        },
        _ => (0, None),
    }
}

/// What is known of the sender's identity.
pub struct IdentityState {
    /// The sender has proved who it is.
    pub proven: bool,
    /// The sender's device key is known.
    pub device_known: bool,
    /// The link to the sender is up.
    pub link_ready: bool,
    /// A challenge to the sender is unanswered.
    pub challenged: bool,
}

/// An offer over a typed code whose sender is not known.
pub open spec fn unknown_over_code(code_path: bool, id: IdentityState) -> bool {
    code_path && !id.proven && !id.device_known
}

/// Whether an offer is to wait for the sender's identity. Over a typed code it waits
/// while the link comes up, and after that for `IDENTITY_HOLD` from when it was first
/// looked at (`holds` keeps when that was); otherwise it waits while capabilities decide
/// and a challenge is unanswered.
pub fn identity_hold(
    holds: &mut Keyed<u64>,
    pid: &str,
    code_path: bool,
    authoritative: bool,
    id: &IdentityState,
    now: u64,
) -> (r: bool)
    requires
        old(holds).wf(),
    ensures
        final(holds).wf(),
        unknown_over_code(code_path, *id) && !id.link_ready ==> r && *final(holds) == *old(holds),
        unknown_over_code(code_path, *id) && id.link_ready && old(holds)@.contains_key(pid@) ==> r
            == (shared_defs::since(now, old(holds)@[pid@]) < IDENTITY_HOLD) && *final(holds)
            == *old(holds),
        unknown_over_code(code_path, *id) && id.link_ready && !old(holds)@.contains_key(pid@) ==> r
            && final(holds)@ == old(holds)@.insert(pid@, now),
        !unknown_over_code(code_path, *id) ==> r == (authoritative && id.challenged && !id.proven)
            && *final(holds) == *old(holds),
{
    if code_path && !id.proven && !id.device_known {
        if !id.link_ready {
            return true;
        }
        let start: Option<u64> = match holds.get(pid) {
            Some(t) => Some(*t),
            None => None,
        };
        match start {
            Some(t) => elapsed(now, t) < IDENTITY_HOLD,
            None => {
                holds.insert(pid, now);
                true
            },
        }
    } else {
        authoritative && id.challenged && !id.proven
    }
}

/// A hold over a typed code ends: `IDENTITY_HOLD` after its clock started, an offer over a
/// link that is up is decided on.
pub proof fn identity_hold_ends(start: u64, now: u64)
    requires
        now >= start + IDENTITY_HOLD,
    ensures
        !(shared_defs::since(now, start) < IDENTITY_HOLD),
{
}

/// Whether an offer is fit to be accepted before capabilities are looked at. A daemon
/// accepts from trusted links alone; otherwise a blanket yes, the operator's yes to this
/// offer, a trusted link, or a transfer taken up where it was left will do.
pub fn legacy_ok(
    daemon: bool,
    yes: bool,
    consented: bool,
    trusted: bool,
    resume: bool,
    offset: u64,
) -> (r: bool)
    ensures
        r == (if daemon {
            trusted
        } else {
            yes || consented || trusted || (resume && offset > 0)
        }),
{
    if daemon {
        trusted
    } else {
        yes || consented || trusted || (resume && offset > 0)
    }
}

/// What the capability gate says of an offer.
pub struct GateOutcome {
    /// It lets the offer through.
    pub allowed: bool,
    /// Why it does not, where it has a reason of its own.
    pub reason: Option<String>,
    /// Why it refuses for good, where capabilities decide.
    pub hard_reason: Option<String>,
}

/// What to do with an offer.
pub enum Decision {
    /// Decline it and say so; where `request` is set, note that the peer may be granted
    /// the transfer.
    Decline { line: String, request: bool },
    /// Ask the operator.
    Ask,
    /// Accept it.
    Accept,
}

/// The line about an offer that was declined.
pub open spec fn declined_line(name: Seq<char>, sender: Seq<char>, why: Seq<char>) -> Seq<char> {
    "  declined "@ + name + " from "@ + sender + " ("@ + why + ")"@
}

/// Why an offer that the capabilities did not let through is declined.
pub open spec fn soft_reason(reason: Option<String>, daemon: bool) -> Seq<char> {
    match reason {
        Some(s) => s@,
        None => if daemon {
            "unverified peer"@
        } else {
            "no tty, use -y to auto-accept"@
        },
    }
}

fn say_declined(name: &str, sender: &str, why: &str) -> (r: String)
    ensures
        r@ == declined_line(name@, sender@, why@),
{
    let mut out = cat5("  declined ", name, " from ", sender, " (");
    out.append(why);
    out.append(")");
    out
}

/// Decide on an offer. A refusal for good is final. An offer that was not let through is
/// put to the operator only if there is one at a terminal and the capabilities gave no reason of
/// their own; otherwise it is declined.
pub fn decide_offer(gate: &GateOutcome, name: &str, sender: &str, daemon: bool, tty: bool) -> (r:
    Decision)
    ensures
        r is Accept <==> gate.hard_reason is None && gate.allowed,
        r is Ask <==> gate.hard_reason is None && !gate.allowed && !daemon && tty && gate.reason
            is None,
        gate.hard_reason matches Some(why) ==> (r matches Decision::Decline { line, request } && line@
            == declined_line(name@, sender@, why@) && request == daemon),
        gate.hard_reason is None && r is Decline ==> !r->request && r->line@ == declined_line(
            name@,
            sender@,
            soft_reason(gate.reason, daemon),
        ),
{
    if let Some(why) = &gate.hard_reason {
        return Decision::Decline {
            line: say_declined(name, sender, why.as_str()),
            request: daemon,
        };
    }
    if gate.allowed {
        return Decision::Accept;
    }
    match &gate.reason {
        Some(why) => Decision::Decline {
            line: say_declined(name, sender, why.as_str()),
            request: false,
        },
        None => {
            if !daemon && tty {
                return Decision::Ask;
            }
            let why = if daemon {
                "unverified peer"
            } else {
                "no tty, use -y to auto-accept"
            };
            Decision::Decline { line: say_declined(name, sender, why), request: false }
        },
    }
}

/// The digest to compare on completion: the offer's, else the one kept with the partial.
pub fn effective_full(offered: Option<String>, prior: Option<String>) -> (r: Option<String>)
    ensures
        r == (if offered is Some {
            offered
        } else {
            prior
        }),
{
    match offered {
        Some(f) => Some(f),
        None => prior,
    }
}

} // verus!
