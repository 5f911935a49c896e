//! Pairing inside a running session: codes typed or minted at the terminal, the one secret
//! that is handed over, proofs of acquaintance and introductions.

use vstd::prelude::*;
use vstd::string::*;
use crate::frame;
use crate::frame::{flag_at, object, of_text, put, text_at};
use crate::hexadecimal;
use crate::hexadecimal::encode;
use crate::keyed;
use crate::keyed::lists;
use crate::offer;
use crate::offer::text_member;
use crate::remember;
use crate::remember::{ack_frame, judge_offer, AnswerStep, SECRET_HEX_LEN};
use crate::shared_defs;
use crate::text;
use crate::text::{cat, cat3, same, strip_prefix, to_lower, trim};

verus! {

/// Pairing inside a running session. Exactly one side hands over a secret: who minted the
/// code does so at once; who claimed it waits a little, and does so if nothing came.
pub struct PairSession {
    /// A code was typed, so the peer is somebody in particular.
    pub paired: bool,
    /// A claim of a code is unanswered.
    pub claim_in_flight: bool,
    /// A ceremony is due on the next new link: `true` where we minted the code, `false`
    /// where we claimed it.
    pub ceremony: Option<bool>,
    /// The peer that our secret was handed to and that has not answered.
    pub ceremony_pid: Option<String>,
    /// The secret to hand over.
    pub ceremony_secret: String,
}

/// What a line typed at the terminal asks for.
pub enum Command {
    /// List the known devices.
    Devices,
    /// Forget this one.
    Forget { name: String },
    /// There is no such device.
    NoSuchDevice { line: String },
    /// Mint a code.
    Mint,
    /// Claim this code.
    Claim { code: String },
    /// A claim is unanswered already.
    Busy,
    /// Say what can be typed.
    Hint,
    /// Nothing.
    Nothing,
}

/// What a line asks for, and what it makes of the session.
///
/// `ans` is the line in small letters; `blank` says that nothing was typed.
pub open spec fn commanded(
    was: PairSession,
    now: PairSession,
    ans: Seq<char>,
    blank: bool,
    is_code: bool,
    devices: Seq<String>,
    daemon: bool,
    r: Command,
) -> bool {
    let rest = text::trimmed(ans.subrange("forget "@.len() as int, ans.len() as int));
    if ans == "devices"@ {
        r is Devices && now == was
    } else if text::begins(ans, "forget "@) {
        &&& now == was
        &&& if keyed::listed(devices, rest) {
            r matches Command::Forget { name } && name@ == rest
        } else {
            r matches Command::NoSuchDevice { line: l } && l@ == "  no device named '"@ + rest
                + "' (try `devices`)"@
        }
    } else if ans == "pair"@ || ans == "code"@ {
        &&& r is Mint
        &&& now == (PairSession {
            ceremony: if daemon {
                Some(true)
            } else {
                was.ceremony
            },
            ..was
        })
    } else if is_code && was.claim_in_flight {
        r is Busy && now == was
    } else if is_code {
        &&& r matches Command::Claim { code } && code@ == ans
        &&& now == (PairSession {
            paired: true,
            claim_in_flight: true,
            ceremony: if daemon {
                Some(false)
            } else {
                was.ceremony
            },
            ..was
        })
    } else if !blank {
        r is Hint && now == was
    } else {
        r is Nothing && now == was
    }
}

/// What a new link asks of the ceremony.
#[derive(Clone, Copy, Debug, PartialEq, Eq, Structural)]
pub enum LinkStep {
    /// Hand over our secret.
    Offer,
    /// Give the other side a while to hand over its own.
    Wait,
    /// Nothing.
    Nothing,
}

/// What an offered secret asks for.
pub enum Keep {
    /// It is no secret: no answer is owed.
    Ignore,
    /// Store it under `name`. Where `ceremony` is set it is ours by the ceremony, and its
    /// meeting point is to be watched at once.
    Store { name: String, secret: String, ceremony: bool },
    /// Nothing is stored; say so.
    Refuse { line: String },
}

/// What an answer to our own offer asks for.
pub enum KeepAcked {
    /// It answers no offer of ours.
    NotOurs,
    /// They did not accept: nothing is stored.
    Declined,
    /// They accepted: store this record.
    Store { name: String, secret: String },
}

/// A link's name, or "device" where there is no link.
pub open spec fn name_or_device(link_name: Option<Seq<char>>) -> Seq<char> {
    match link_name {
        Some(n) => n,
        None => "device"@,
    }
}

/// A new link makes us hand over our secret.
pub open spec fn hands_over_at_once(s: PairSession) -> bool {
    s.ceremony == Some(true)
}

/// The end of the wait makes us hand over our secret.
pub open spec fn hands_over_late(s: PairSession) -> bool {
    s.ceremony == Some(false)
}

/// The session once its ceremony is over.
pub open spec fn ceremony_over(s: PairSession) -> PairSession {
    PairSession { ceremony: None, ..s }
}

/// What an offered secret asks for, and what it makes of the session: it is stored where the
/// operator gave a name for it, where we claimed the peer's code and wait for its secret, or
/// where the operator says yes to everything; then it is filed under a petname.
pub open spec fn keeps(
    was: PairSession,
    now: PairSession,
    v: frame::Json,
    remember: Option<Seq<char>>,
    yes: bool,
    link_name: Option<Seq<char>>,
    r: Keep,
) -> bool {
    let peer = name_or_device(link_name);
    &&& r is Ignore <==> !remember::usable(v)
    &&& r is Refuse <==> remember::usable(v) && remember is None && !hands_over_late(was) && !yes
    &&& r matches Keep::Refuse { line } ==> line@ == remember::refusal(peer)
    &&& r matches Keep::Store { name, secret, ceremony } ==> {
        &&& secret@ == remember::offered_secret(v)
        &&& ceremony == (remember is None && hands_over_late(was))
        &&& name@ == (match remember {
            Some(n) => n,
            None => if hands_over_late(was) {
                peer
            } else {
                remember::petname_of(v.text_at("name"@), peer)
            },
        })
    }
    &&& now == (if r is Store && r->ceremony {
        ceremony_over(was)
    } else {
        was
    })
}

/// What the answer to our own offer asks for, and what it makes of the session.
pub open spec fn answered(
    was: PairSession,
    now: PairSession,
    pid: Seq<char>,
    v: frame::Json,
    link_name: Option<Seq<char>>,
    fresh_secret: Seq<char>,
    r: KeepAcked,
) -> bool {
    let ours = was.ceremony_pid is Some && was.ceremony_pid->0@ == pid;
    &&& r is NotOurs <==> !ours
    &&& r is Declined <==> ours && remember::refuses(v)
    &&& r matches KeepAcked::Store { name, secret } ==> secret == was.ceremony_secret && name@
        == name_or_device(link_name)
    &&& now == (PairSession {
        ceremony_pid: if ours {
            None
        } else {
            was.ceremony_pid
        },
        ceremony_secret: now.ceremony_secret,
        ..was
    })
    &&& if r is Store {
        now.ceremony_secret@ == fresh_secret
    } else {
        now.ceremony_secret == was.ceremony_secret
    }
}

/// The session once our secret was handed over to `pid`.
pub open spec fn handed_over(was: PairSession, now: PairSession, pid: Seq<char>) -> bool {
    &&& now == (PairSession { ceremony: None, ceremony_pid: now.ceremony_pid, ..was })
    &&& now.ceremony_pid is Some
    &&& now.ceremony_pid->0@ == pid
}

impl PairSession {
    /// A session that was started with a code, or without one.
    pub fn new(code_given: bool, fresh_secret: &str) -> (r: PairSession)
        ensures
            r.paired == code_given,
            !r.claim_in_flight,
            r.ceremony is None,
            r.ceremony_pid is None,
            r.ceremony_secret@ == fresh_secret@,
    {
        PairSession {
            paired: code_given,
            claim_in_flight: false,
            ceremony: None,
            ceremony_pid: None,
            ceremony_secret: fresh_secret.to_owned(),
        }
    }

    /// The operator has typed a line while no question was open; `is_code` says that it
    /// looks like a code.
    pub fn command(&mut self, line: &str, is_code: bool, devices: &Vec<String>, daemon: bool) -> (r:
        Command)
        ensures
            commanded(
                *old(self),
                *final(self),
                text::lowercase(line@),
                line@.len() == 0,
                is_code,
                devices@,
                daemon,
                r,
            ),
    {
        self.obey(to_lower(line), line.is_empty(), is_code, devices, daemon)
    }

    /// The operator's line, in small letters, is taken for a command; `blank` says that nothing
    /// was typed.
    pub fn obey(
        &mut self,
        ans: String,
        blank: bool,
        is_code: bool,
        devices: &Vec<String>,
        daemon: bool,
    ) -> (r: Command)
        ensures
            commanded(*old(self), *final(self), ans@, blank, is_code, devices@, daemon, r),
    {
        if same(ans.as_str(), "devices") {
            return Command::Devices;
        }
        if let Some(rest) = strip_prefix(ans.as_str(), "forget ") {
            let n = trim(rest);
            if lists(devices, n) {
                return Command::Forget { name: n.to_owned() };
            }
            return Command::NoSuchDevice {
                line: cat3("  no device named '", n, "' (try `devices`)"),
            };
        }
        if same(ans.as_str(), "pair") || same(ans.as_str(), "code") {
            if daemon {
                self.ceremony = Some(true);
            }
            return Command::Mint;
        }
        if is_code {
            if self.claim_in_flight {
                return Command::Busy;
            }
            self.paired = true;
            self.claim_in_flight = true;
            if daemon {
                self.ceremony = Some(false);
            }
            return Command::Claim { code: ans };
        }
        if blank {
            Command::Nothing
        } else {
            Command::Hint
        }
    }

    /// A claim was matched.
    pub fn matched(&mut self)
        ensures
            *final(self) == (PairSession { claim_in_flight: false, ..*old(self) }),
    {
        self.claim_in_flight = false;
    }

    /// A claim was rejected and the session goes on.
    pub fn rejected(&mut self)
        ensures
            *final(self) == (PairSession { claim_in_flight: false, paired: false, ..*old(self) }),
    {
        self.claim_in_flight = false;
        self.paired = false;
    }

    /// A link has come up. `fresh` says that it is to a peer that was never met.
    pub fn link_up(&mut self, pid: &str, fresh: bool) -> (r: LinkStep)
        ensures
            r is Offer <==> fresh && hands_over_at_once(*old(self)),
            r is Wait <==> fresh && hands_over_late(*old(self)),
            r !is Offer ==> *final(self) == *old(self),
            r is Offer ==> handed_over(*old(self), *final(self), pid@),
    {
        if !fresh {
            return LinkStep::Nothing;
        }
        match self.ceremony {
            Some(true) => {
                self.ceremony = None;
                self.ceremony_pid = Some(pid.to_owned());
                LinkStep::Offer
            },
            Some(false) => LinkStep::Wait,
            None => LinkStep::Nothing,
        }
    }

    /// The other side has had its while. Tells whether to hand over our own secret: not
    /// where the ceremony is over.
    pub fn fallback(&mut self, pid: &str) -> (r: bool)
        ensures
            r == hands_over_late(*old(self)),
            !r ==> *final(self) == *old(self),
            r ==> handed_over(*old(self), *final(self), pid@),
    {
        match self.ceremony {
            Some(false) => {
                self.ceremony = None;
                self.ceremony_pid = Some(pid.to_owned());
                true
            },
            _ => false,
        }
    }

    /// A peer offers a secret. It is stored where the operator gave a name for it, where we
    /// claimed the peer's code and wait for its secret, or where the operator says `yes` to
    /// everything; otherwise it is refused.
    pub fn keep_offered(
        &mut self,
        v: &serde_json::Value,
        remember: Option<&str>,
        yes: bool,
        link_name: Option<&str>,
    ) -> (r: Keep)
        ensures
            keeps(
                *old(self),
                *final(self),
                frame::json(*v),
                shared_defs::view_of_str(remember),
                yes,
                shared_defs::view_of_str(link_name),
                r,
            ),
    {
        let peer: &str = match link_name {
            Some(n) => n,
            None => "device",
        };
        let ours: bool = match self.ceremony {
            Some(false) => remember.is_none(),
            _ => false,
        };
        let wish: Option<&str> = if ours {
            Some(peer)
        } else {
            remember
        };
        match judge_offer(v, wish, yes, peer) {
            AnswerStep::Ignore => Keep::Ignore,
            AnswerStep::Refuse { why } => Keep::Refuse { line: why },
            AnswerStep::Store { name, secret } => {
                if ours {
                    self.ceremony = None;
                }
                Keep::Store { name, secret, ceremony: ours }
            },
        }
    }

    /// A peer answers our offer of a secret. Once the record is stored the secret is spent:
    /// `fresh_secret` takes its place.
    pub fn keep_acked(
        &mut self,
        pid: &str,
        v: &serde_json::Value,
        link_name: Option<&str>,
        fresh_secret: &str,
    ) -> (r: KeepAcked)
        ensures
            answered(
                *old(self),
                *final(self),
                pid@,
                frame::json(*v),
                shared_defs::view_of_str(link_name),
                fresh_secret@,
                r,
            ),
    {
        let ours: bool = match &self.ceremony_pid {
            Some(p) => same(p.as_str(), pid),
            None => false,
        };
        if !ours {
            return KeepAcked::NotOurs;
        }
        self.ceremony_pid = None;
        match flag_at(v, "ok") {
            Some(true) => {
                let secret = self.ceremony_secret.clone();
                self.ceremony_secret = fresh_secret.to_owned();
                let name = match link_name {
                    Some(n) => n.to_owned(),
                    None => "device".to_owned(),
                };
                KeepAcked::Store { name, secret }
            },
            _ => KeepAcked::Declined,
        }
    }
}

/// The frame that hands over a secret inside a session.
pub open spec fn keep_json(secret: Seq<char>) -> frame::Json {
    frame::empty_object().with("type"@, frame::Json::Text("pair-keep"@)).with(
        "secret"@,
        frame::Json::Text(secret),
    )
}

/// The frame that hands over a secret inside a session.
pub fn keep_frame(secret: &str) -> (r: serde_json::Value)
    ensures
        frame::json(r) == keep_json(secret@),
{
    let mut f = object();
    put(&mut f, "type", of_text("pair-keep"));
    put(&mut f, "secret", of_text(secret));
    f
}

/// The answer to an offered secret: whether it was kept, with the offer's id if it has one.
pub fn keep_answer(offer: &serde_json::Value, k: &Keep) -> (r: Option<serde_json::Value>)
    ensures
        r is None <==> k is Ignore,
        r matches Some(f) ==> frame::json(f) == remember::ack_json(
            frame::json(*offer),
            k is Store,
        ),
{
    match k {
        Keep::Ignore => None,
        Keep::Store { .. } => Some(ack_frame(offer, true)),
        Keep::Refuse { .. } => Some(ack_frame(offer, false)),
    }
}

/// Whether a link is to a peer that was never met: there is one, it came without a secret,
/// and it is none of the fleet's.
pub fn fresh_link(
    exists_: bool,
    has_secret: bool,
    fleet_pending: bool,
    fleet_verified: bool,
) -> (r: bool)
    ensures
        r == (exists_ && !has_secret && !fleet_pending && !fleet_verified),
{
    exists_ && !has_secret && !fleet_pending && !fleet_verified
}

/// A device and the proof that it would give.
pub struct KnownProof {
    pub name: String,
    pub mac: String,
}

/// No known device would give this proof.
pub open spec fn is_nobodys(known: Seq<KnownProof>, mac: Seq<char>) -> bool {
    forall|i: int| 0 <= i < known.len() ==> (#[trigger] known[i]).mac@ != mac
}

/// Whose proof this is: the first known device that would give it, unless it comes from
/// our own installation, which holds every secret we hold.
pub fn match_proof(from_self: bool, known: &Vec<KnownProof>, mac: &str) -> (r: Option<usize>)
    ensures
        r is None <==> from_self || is_nobodys(known@, mac@),
        r matches Some(i) ==> i < known@.len() && known@[i as int].mac@ == mac@ && forall|j: int|
            0 <= j < i ==> (#[trigger] known@[j]).mac@ != mac@,
{
    if from_self {
        return None;
    }
    let mut i: usize = 0;
    while i < known.len()
        invariant
            i <= known@.len(),
            !from_self,
            forall|j: int| 0 <= j < i ==> (#[trigger] known@[j]).mac@ != mac@,
        decreases known.len() - i,
    {
        if same(known[i].mac.as_str(), mac) {
            proof {
                assert(known@[i as int].mac@ == mac@);
            }
            return Some(i);
        }
        i += 1;
    }
    None
}

/// Whether a peer whose identity has just become known is to be challenged for it: where
/// capabilities decide, its device key is known and it has not proved itself.
pub fn needs_proof(authoritative: bool, device_known: bool, proven: bool) -> (r: bool)
    ensures
        r == (authoritative && device_known && !proven),
{
    authoritative && device_known && !proven
}

/// What an introduction asks for.
pub enum Introduction {
    /// Store this record and challenge the peer.
    Store { name: String, secret: String, line: String },
    /// Ignore it and say so.
    Ignore { line: String },
}

/// An introduction counts: it comes from a peer that has proved itself, with a secret and
/// a name.
pub open spec fn introduces(trusted: bool, v: frame::Json) -> bool {
    trusted && remember::usable(v) && offer::text_or(v, "name"@, Seq::empty()).len() > 0
}

/// What an introduction through `hub` asks for.
pub open spec fn introduced(trusted: bool, v: frame::Json, hub: Seq<char>, r: Introduction) -> bool {
    &&& r is Store <==> introduces(trusted, v)
    &&& r matches Introduction::Store { name, secret, line } ==> {
        &&& name@ == offer::text_or(v, "name"@, Seq::empty())
        &&& secret@ == remember::offered_secret(v)
        &&& line@ == "introduced to '"@ + name@ + "' by "@ + hub + ", now a known device"@
    }
    &&& r matches Introduction::Ignore { line } ==> line@
        == "  ignored pair-intro from unverified peer "@ + hub
}

/// What an introduction asks for. Only a peer that has proved itself may vouch for another.
pub fn introduction(trusted: bool, v: &serde_json::Value, hub: &str) -> (r: Introduction)
    ensures
        introduced(trusted, frame::json(*v), hub@, r),
{
    let name = text_member(v, "name", "");
    let secret = text_member(v, "secret", "");
    proof {
        reveal_strlit("");
        assert(""@ =~= Seq::<char>::empty());
    }
    if trusted && secret.as_str().len() == SECRET_HEX_LEN && !name.as_str().is_empty() {
        let mut line = cat3("introduced to '", name.as_str(), "' by ");
        line.append(hub);
        line.append(", now a known device");
        Introduction::Store { name, secret, line }
    } else {
        Introduction::Ignore { line: cat("  ignored pair-intro from unverified peer ", hub) }
    }
}

/// `ring::rand::SystemRandom` fills 32 bytes. They are random, so nothing but their number
/// is known of them; where the system fails to give any they may be zero.
#[verifier::external_body]
pub(crate) fn random_nonce() -> (r: Vec<u8>)
    ensures
        r@.len() == 32,
{
    let mut nonce = [0u8; 32];
    let _ = ring::rand::SecureRandom::fill(&ring::rand::SystemRandom::new(), &mut nonce);
    nonce.to_vec()
}

/// A challenge for a peer's identity.
pub open spec fn challenge_json(nonce: Seq<u8>, own_device_pub: Seq<u8>) -> frame::Json {
    frame::empty_object().with("type"@, frame::Json::Text("identity-nonce-challenge"@)).with(
        "nonce"@,
        frame::Json::Text(hexadecimal::hex_text(nonce)),
    ).with("receiver_device_pub"@, frame::Json::Text(hexadecimal::hex_text(own_device_pub)))
}

/// The challenge with this nonce.
pub fn challenge_frame(nonce: &[u8], own_device_pub: &[u8]) -> (r: serde_json::Value)
    ensures
        frame::json(r) == challenge_json(nonce@, own_device_pub@),
{
    let mut f = object();
    put(&mut f, "type", of_text("identity-nonce-challenge"));
    put(&mut f, "nonce", of_text(encode(nonce).as_str()));
    put(&mut f, "receiver_device_pub", of_text(encode(own_device_pub).as_str()));
    f
}

/// A fresh challenge, and the nonce that its answer must hold.
pub fn fresh_challenge(own_device_pub: &[u8]) -> (r: (Vec<u8>, serde_json::Value))
    ensures
        r.0@.len() == 32,
        frame::json(r.1) == challenge_json(r.0@, own_device_pub@),
{
    let nonce = random_nonce();
    let f = challenge_frame(nonce.as_slice(), own_device_pub);
    (nonce, f)
}

/// Only one side hands over a secret: once the other side's was kept by the ceremony, or our
/// own was handed over, neither a new link nor the end of the wait hands over ours.
pub proof fn one_side_hands_over(s: PairSession)
    ensures
        !hands_over_late(ceremony_over(s)),
        !hands_over_at_once(ceremony_over(s)),
        !(hands_over_late(s) && hands_over_at_once(s)),
{
}

} // verus!
