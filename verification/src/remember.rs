//! The remember ceremony: promoting a session to a remembered relationship.
//!
//! The rules:
//!
//!   * Remembering is mutual or it does not happen. The offerer writes nothing until an
//!     ack arrives that says yes in so many words.
//!   * Silence is not consent: no ack, no write.
//!   * An ack must echo the id of the offer it answers. Only an ack of the first version may
//!     leave the id out: it answers the one outstanding offer.
//!   * An offer carries no grant and no role: a record is a secret and a petname.
//!
//! The device store belongs to the caller. Each side first asks what there is to
//! store (`judge_ack`, `judge_offer`), lets the caller store it, and then settles the
//! ceremony with what came of that (`apply_ack`, `answer_offer`).

use vstd::prelude::*;
use vstd::string::*;
use crate::frame;
use crate::frame::{
    count_at, flag_at, member, object, of_count, of_flag, of_text, put, same_value, text_at, Json,
};
use crate::text;
use crate::text::{cat, cat3, same};

verus! {

/// The frame version that carries an offer id.
pub const V2: u64 = 2;

/// A pair secret is 32 bytes in hexadecimal: any other length is not one.
pub const SECRET_HEX_LEN: usize = 64;

/// The longest petname taken from a proposal.
pub const PETNAME_MAX: usize = 40;

/// An offer that was made and has not been answered yet. Held by the offering side
/// only: its secret must not reach the disk until the other side says yes.
#[derive(Clone, Debug)]
pub struct Offer {
    pub offer_id: String,
    pub secret: String,
    /// The local petname the peer is filed under if it accepts.
    pub name: String,
    /// The peer that the offer went to.
    pub peer: String,
}

/// Mint an offer for `peer`, to be filed locally as `name`, from two fresh secrets: the
/// first sixteen characters of `fresh_id` identify the offer.
pub fn make_offer(name: &str, peer: &str, fresh_id: &str, fresh_secret: &str) -> (o: Offer)
    requires
        fresh_id.is_ascii(),
        fresh_id@.len() >= 16,
    ensures
        o.offer_id@ == fresh_id@.subrange(0, 16),
        o.secret@ == fresh_secret@,
        o.name@ == name@,
        o.peer@ == peer@,
{
    Offer {
        offer_id: fresh_id.substring_ascii(0, 16).to_owned(),
        secret: fresh_secret.to_owned(),
        name: name.to_owned(),
        peer: peer.to_owned(),
    }
}

/// The frame that carries an offer with this id and secret, proposing `display`.
pub open spec fn offer_json(offer_id: Seq<char>, secret: Seq<char>, display: Seq<char>) -> Json {
    frame::empty_object().with("type"@, Json::Text("pair-keep"@)).with(
        "v"@,
        Json::Number(Some(V2)),
    ).with("offer_id"@, Json::Text(offer_id)).with("secret"@, Json::Text(secret)).with(
        "name"@,
        Json::Text(display),
    )
}

/// The frame that carries an offer. `display` is our own proposed name: a suggestion
/// the other side may file us under.
pub fn offer_frame(o: &Offer, display: &str) -> (r: serde_json::Value)
    ensures
        frame::json(r) == offer_json(o.offer_id@, o.secret@, display@),
{
    let mut f = object();
    put(&mut f, "type", of_text("pair-keep"));
    put(&mut f, "v", of_count(V2));
    put(&mut f, "offer_id", of_text(o.offer_id.as_str()));
    put(&mut f, "secret", of_text(o.secret.as_str()));
    put(&mut f, "name", of_text(display));
    f
}

/// What an inbound ack did to the outstanding offer.
#[derive(Debug, PartialEq, Eq)]
pub enum Ack {
    /// They said yes and the record is stored under `name`.
    Accepted { name: String, secret: String },
    /// They said no. Nothing was written; the secret is gone.
    Declined,
    /// It answered no offer of ours.
    Unmatched,
}

/// What an inbound ack asks for.
#[derive(Debug, PartialEq, Eq)]
pub enum AckStep {
    /// It answers no offer of ours.
    Unmatched,
    /// It does not accept our offer.
    Decline,
    /// It accepts our offer: this record is to be stored.
    Store { name: String, secret: String },
}

/// A frame is of the first version: it says so, or names no version.
pub open spec fn is_v1(v: Json) -> bool {
    v.member("v"@) is Null || v.count_at("v"@) == Some(1u64)
}

/// Whether a frame is of the first version.
pub fn first_version(v: &serde_json::Value) -> (r: bool)
    ensures
        r == is_v1(frame::json(*v)),
{
    let nothing = object();
    same_value(member(v, "v"), member(&nothing, "v")) || match count_at(v, "v") {
        Some(n) => n == 1,
        None => false,
    }
}

/// An ack from `peer` answers the outstanding offer: there is one, it went to that
/// peer, and the ack echoes the offer's id, or is of the first version and has none.
pub open spec fn answers(pending: Option<Offer>, peer: Seq<char>, v: Json) -> bool {
    &&& pending matches Some(o)
    &&& o.peer@ == peer
    &&& match v.text_at("offer_id"@) {
        Some(id) => id == o.offer_id@,
        None => is_v1(v),
    }
}

/// An ack does not say yes.
pub open spec fn refuses(v: Json) -> bool {
    v.flag_at("ok"@) != Some(true)
}

/// What an ack from `peer` asks for, with nothing changed yet.
pub fn judge_ack(pending: &Option<Offer>, peer: &str, v: &serde_json::Value) -> (r: AckStep)
    ensures
        r is Unmatched <==> !answers(*pending, peer@, frame::json(*v)),
        r is Decline <==> answers(*pending, peer@, frame::json(*v)) && refuses(frame::json(*v)),
        r matches AckStep::Store { name, secret } ==> name@ == pending->0.name@ && secret@
            == pending->0.secret@,
{
    match pending {
        None => AckStep::Unmatched,
        Some(o) => {
            if !same(o.peer.as_str(), peer) {
                return AckStep::Unmatched;
            }
            let ours: bool = match text_at(v, "offer_id") {
                Some(id) => same(id, o.offer_id.as_str()),
                None => first_version(v),
            };
            if !ours {
                return AckStep::Unmatched;
            }
            match flag_at(v, "ok") {
                Some(true) => AckStep::Store { name: o.name.clone(), secret: o.secret.clone() },
                _ => AckStep::Decline,
            }
        },
    }
}

/// Settle an ack. `stored` is what came of storing the record that `judge_ack` asked to
/// store, and is not looked at where it asked for none. A failed store leaves the offer
/// outstanding and is reported.
pub fn apply_ack(
    pending: &mut Option<Offer>,
    peer: &str,
    v: &serde_json::Value,
    stored: Result<(), String>,
) -> (r: Result<Ack, String>)
    ensures
        r matches Ok(Ack::Unmatched) <==> !answers(*old(pending), peer@, frame::json(*v)),
        r matches Ok(Ack::Declined) <==> answers(*old(pending), peer@, frame::json(*v)) && refuses(
            frame::json(*v),
        ),
        r is Err <==> answers(*old(pending), peer@, frame::json(*v)) && !refuses(frame::json(*v)) && stored is Err,
        r matches Err(e) ==> stored == Err::<(), String>(e),
        r matches Ok(Ack::Accepted { name, secret }) ==> name@ == old(pending)->0.name@ && secret@
            == old(pending)->0.secret@,
        r is Err || r == Ok::<Ack, String>(Ack::Unmatched) ==> *final(pending) == *old(pending),
        r is Ok && r != Ok::<Ack, String>(Ack::Unmatched) ==> *final(pending) is None,
{
    match judge_ack(pending, peer, v) {
        AckStep::Unmatched => Ok(Ack::Unmatched),
        AckStep::Decline => {
            *pending = None;
            Ok(Ack::Declined)
        },
        AckStep::Store { name, secret } => match stored {
            Err(e) => Err(e),
            Ok(()) => {
                *pending = None;
                Ok(Ack::Accepted { name, secret })
            },
        },
    }
}

/// What was done with an inbound offer.
#[derive(Debug, PartialEq, Eq)]
pub enum Answer {
    /// Consent existed and the record is stored under `name`.
    Kept { name: String, secret: String },
    /// No consent. Nothing written; `why` says what the operator can do.
    Refused { why: String },
    /// Not an offer that can be acted on. No ack is owed.
    Ignored,
}

impl Answer {
    /// The `ok` this answer acks with, if it acks at all.
    pub fn ok(&self) -> (r: Option<bool>)
        ensures
            r == (match *self {
                Answer::Kept { .. } => Some(true),
                Answer::Refused { .. } => Some(false),
                Answer::Ignored => None,
            }),
    {
        match self {
            Answer::Kept { .. } => Some(true),
            Answer::Refused { .. } => Some(false),
            Answer::Ignored => None,
        }
    }
}

/// The ack for an offer: it echoes the offer's id, if the offer has one.
pub open spec fn ack_json(offer: Json, ok: bool) -> Json {
    let f = frame::empty_object().with("type"@, Json::Text("pair-keep-ack"@)).with("ok"@, Json::Bool(ok));
    match offer.text_at("offer_id"@) {
        Some(id) => f.with("offer_id"@, Json::Text(id)).with("v"@, Json::Number(Some(V2))),
        None => f,
    }
}

/// The ack for an offer, echoing its id so that the offerer can match it.
pub fn ack_frame(offer: &serde_json::Value, ok: bool) -> (r: serde_json::Value)
    ensures
        frame::json(r) == ack_json(frame::json(*offer), ok),
{
    let mut f = object();
    put(&mut f, "type", of_text("pair-keep-ack"));
    put(&mut f, "ok", of_flag(ok));
    if let Some(id) = text_at(offer, "offer_id") {
        put(&mut f, "offer_id", of_text(id));
        put(&mut f, "v", of_count(V2));
    }
    f
}

/// What an inbound offer asks for.
#[derive(Debug, PartialEq, Eq)]
pub enum AnswerStep {
    /// It carries no usable secret.
    Ignore,
    /// There is no consent.
    Refuse { why: String },
    /// There is consent: this record is to be stored.
    Store { name: String, secret: String },
}

/// The secret that an offer carries; empty where it carries none.
pub open spec fn offered_secret(offer: Json) -> Seq<char> {
    match offer.text_at("secret"@) {
        Some(s) => s,
        None => Seq::empty(),
    }
}

/// An offer carries something of a secret's length.
pub open spec fn usable(offer: Json) -> bool {
    text::byte_len(offered_secret(offer)) == SECRET_HEX_LEN
}

/// Consent is a name the operator gave, or the blanket yes.
pub open spec fn consented(remember: Option<&str>, assume_yes: bool) -> bool {
    remember is Some || assume_yes
}

/// The local name for an accepted offer: the operator's, else one made of the proposal.
pub open spec fn kept_name(offer: Json, remember: Option<&str>, peer_name: Seq<char>) -> Seq<char> {
    match remember {
        Some(n) => n@,
        None => petname_of(offer.text_at("name"@), peer_name),
    }
}

/// What is said where nobody was asked.
pub open spec fn refusal(peer_name: Seq<char>) -> Seq<char> {
    peer_name
        + " offered to be remembered; nothing was stored. Re-run with --remember <name> (or --yes) to accept"@
}

/// What an inbound offer asks for. Consent is a name in `remember`, or `assume_yes`;
/// without either the offer is refused, and nobody is prompted.
pub fn judge_offer(
    offer: &serde_json::Value,
    remember: Option<&str>,
    assume_yes: bool,
    peer_name: &str,
) -> (r: AnswerStep)
    ensures
        r is Ignore <==> !usable(frame::json(*offer)),
        r is Refuse <==> usable(frame::json(*offer)) && !consented(remember, assume_yes),
        r matches AnswerStep::Refuse { why } ==> why@ == refusal(peer_name@),
        r matches AnswerStep::Store { name, secret } ==> name@ == kept_name(
            frame::json(*offer),
            remember,
            peer_name@,
        ) && secret@ == offered_secret(frame::json(*offer)),
{
    let secret = match text_at(offer, "secret") {
        Some(s) => s.to_owned(),
        None => String::new(),
    };
    if secret.as_str().len() != SECRET_HEX_LEN {
        return AnswerStep::Ignore;
    }
    match remember {
        Some(n) => AnswerStep::Store { name: n.to_owned(), secret },
        None => {
            if !assume_yes {
                return AnswerStep::Refuse {
                    why: cat(
                        peer_name,
                        " offered to be remembered; nothing was stored. Re-run with --remember <name> (or --yes) to accept",
                    ),
                };
            }
            AnswerStep::Store { name: petname(text_at(offer, "name"), peer_name), secret }
        },
    }
}

/// Settle an inbound offer. `stored` is what came of storing the record that
/// `judge_offer` asked to store, and is not looked at where it asked for none.
pub fn answer_offer(
    offer: &serde_json::Value,
    remember: Option<&str>,
    assume_yes: bool,
    peer_name: &str,
    stored: Result<(), String>,
) -> (r: Result<Answer, String>)
    ensures
        r matches Ok(Answer::Ignored) <==> !usable(frame::json(*offer)),
        r matches Ok(Answer::Refused { .. }) <==> usable(frame::json(*offer)) && !consented(
            remember,
            assume_yes,
        ),
        r is Err <==> usable(frame::json(*offer)) && consented(remember, assume_yes) && stored is Err,
        r matches Err(e) ==> stored == Err::<(), String>(e),
        r matches Ok(Answer::Refused { why }) ==> why@ == refusal(peer_name@),
        r matches Ok(Answer::Kept { name, secret }) ==> name@ == kept_name(
            frame::json(*offer),
            remember,
            peer_name@,
        ) && secret@ == offered_secret(frame::json(*offer)),
{
    match judge_offer(offer, remember, assume_yes, peer_name) {
        AnswerStep::Ignore => Ok(Answer::Ignored),
        AnswerStep::Refuse { why } => Ok(Answer::Refused { why }),
        AnswerStep::Store { name, secret } => match stored {
            Err(e) => Err(e),
            Ok(()) => Ok(Answer::Kept { name, secret }),
        },
    }
}

/// A character that a device name may have.
pub open spec fn is_name_char(c: char) -> bool {
    ||| '0' <= c <= '9'
    ||| 'A' <= c <= 'Z'
    ||| 'a' <= c <= 'z'
    ||| c == '-'
    ||| c == '_'
    ||| c == '.'
}

/// The characters of a text that a device name may have, in order.
pub open spec fn name_chars(s: Seq<char>) -> Seq<char>
    decreases s.len(),
{
    if s.len() == 0 {
        s
    } else if is_name_char(s.last()) {
        name_chars(s.drop_last()).push(s.last())
    } else {
        name_chars(s.drop_last())
    }
}

/// At most the first `PETNAME_MAX` of them.
pub open spec fn cleaned_name(s: Seq<char>) -> Seq<char> {
    let k = name_chars(s);
    if k.len() > PETNAME_MAX {
        k.subrange(0, PETNAME_MAX as int)
    } else {
        k
    }
}

/// A petname: the cleaned proposal, else the cleaned fallback, else "device".
pub open spec fn petname_of(proposed: Option<Seq<char>>, fallback: Seq<char>) -> Seq<char> {
    if proposed is Some && cleaned_name(proposed->0).len() > 0 {
        cleaned_name(proposed->0)
    } else if cleaned_name(fallback).len() > 0 {
        cleaned_name(fallback)
    } else {
        "device"@
    }
}

fn name_char(c: char) -> (r: bool)
    ensures
        r == is_name_char(c),
{
    let n: u32 = c as u32;
    (48 <= n && n <= 57) || (65 <= n && n <= 90) || (97 <= n && n <= 122) || c == '-' || c == '_'
        || c == '.'
}

fn clean_name(s: &str) -> (r: String)
    ensures
        r@ == cleaned_name(s@),
{
    let mut out = String::new();
    let mut kept: usize = 0;
    let ghost mut done = Seq::<char>::empty();
    for c in it: s.chars()
        invariant
            it.seq() == s@,
            done == s@.subrange(0, it.index() as int),
            out@ == cleaned_name(done),
            kept == out@.len(),
            kept <= PETNAME_MAX,
    {
        let ghost next = done.push(c);
        proof {
            assert(next.drop_last() =~= done);
            assert(next =~= s@.subrange(0, it.index() + 1));
        }
        if name_char(c) {
            proof {
                assert(name_chars(next) == name_chars(done).push(c));
            }
            if kept < PETNAME_MAX {
                out.push(c);
                kept += 1;
            } else {
                proof {
                    assert(cleaned_name(next) =~= cleaned_name(done));
                }
            }
        }
        proof {
            assert(out@ =~= cleaned_name(next));
            done = next;
        }
    }
    proof {
        assert(done =~= s@);
    }
    out
}

/// A local petname from the offerer's proposal, falling back to the link's name. The
/// proposal is the peer's text, so it is reduced to what a device name may hold.
pub fn petname(proposed: Option<&str>, fallback: &str) -> (r: String)
    ensures
        r@ == petname_of(
            match proposed {
                Some(p) => Some(p@),
                None => None,
            },
            fallback@,
        ),
{
    if let Some(p) = proposed {
        let cleaned = clean_name(p);
        if !cleaned.as_str().is_empty() {
            return cleaned;
        }
    }
    let fb = clean_name(fallback);
    if fb.as_str().is_empty() {
        "device".to_owned()
    } else {
        fb
    }
}

/// What a run's remember ceremony did.
#[derive(Debug, PartialEq, Eq)]
pub enum Outcome {
    /// Stored under this local name.
    Remembered(String),
    /// They answered no. Nothing stored on either side.
    Declined,
    /// The session ended with the offer outstanding, so nothing was stored.
    Unanswered,
    /// No peer was ever reached, so no offer was made.
    NoPeer,
}

impl Outcome {
    /// Whether a durable record exists because of this run.
    pub fn stored(&self) -> (r: bool)
        ensures
            r == (self is Remembered),
    {
        matches!(self, Outcome::Remembered(_))
    }

    /// The line said of an outcome.
    pub open spec fn said(self) -> Seq<char> {
        match self {
            Outcome::Remembered(n) => "remembered as '"@ + n@
                + "'. it is in `filament devices` and survives a restart; find each other with no code"@,
            Outcome::Declined =>
                "not remembered: the other side declined. nothing was stored here or there"@,
            Outcome::Unanswered =>
                "not remembered: the other side never answered, so nothing was stored (it needs --remember <name> or --yes)"@,
            Outcome::NoPeer =>
                "not remembered: no peer was reached, so nothing was offered and nothing was stored"@,
        }
    }

    /// The line to say. It claims no write that did not happen.
    pub fn line(&self) -> (r: String)
        ensures
            r@ == self.said(),
    {
        match self {
            Outcome::Remembered(n) => cat3(
                "remembered as '",
                n.as_str(),
                "'. it is in `filament devices` and survives a restart; find each other with no code",
            ),
            Outcome::Declined =>
                "not remembered: the other side declined. nothing was stored here or there".to_owned(),
            Outcome::Unanswered =>
                "not remembered: the other side never answered, so nothing was stored (it needs --remember <name> or --yes)".to_owned(),
            Outcome::NoPeer =>
                "not remembered: no peer was reached, so nothing was offered and nothing was stored".to_owned(),
        }
    }
}

/// What a ceremony came to where the session ends: `seen` is what was observed of it, if
/// anything was, and `offered` tells whether an offer was made.
pub fn at_end(seen: Option<Outcome>, offered: bool) -> (r: Outcome)
    ensures
        seen matches Some(o) ==> r == o,
        seen is None ==> r == if offered {
            Outcome::Unanswered
        } else {
            Outcome::NoPeer
        },
{
    match seen {
        Some(o) => o,
        None => if offered {
            Outcome::Unanswered
        } else {
            Outcome::NoPeer
        },
    }
}

/// Whether a run that only wants to be remembered is over: something came of it, or its time
/// is up.
pub fn ceremony_over(seen: &Option<Outcome>, now: u64, deadline: u64) -> (r: bool)
    ensures
        r == (seen is Some || now >= deadline),
{
    seen.is_some() || now >= deadline
}

/// The ack that answers an offer, sent back by the peer it went to, settles that very
/// offer: refused where it says no, and otherwise accepted.
pub proof fn ack_of_an_offer_answers_it(o: Offer, display: Seq<char>, ok: bool)
    ensures
        ({
            let ack = ack_json(offer_json(o.offer_id@, o.secret@, display), ok);
            answers(Some(o), o.peer@, ack) && refuses(ack) == !ok
        }),
{
    broadcast use frame::with_sets_one_member;

    reveal_strlit("v");
    reveal_strlit("ok");
    reveal_strlit("offer_id");
    reveal_strlit("secret");
    reveal_strlit("name");
    assert("v"@.len() == 1 && "ok"@.len() == 2 && "offer_id"@.len() == 8);
    assert("secret"@.len() == 6 && "name"@.len() == 4);
}

/// An ack that names another offer, that should name one and does not, or that comes from
/// another peer, answers nothing.
pub proof fn stray_ack_answers_nothing(o: Offer, peer: Seq<char>, ack: Json)
    requires
        peer != o.peer@ || (ack.text_at("offer_id"@) is Some && ack.text_at("offer_id"@) != Some(
            o.offer_id@,
        )) || (ack.text_at("offer_id"@) is None && !is_v1(ack)),
    ensures
        !answers(Some(o), peer, ack),
{
}

/// An ack that does not say yes is no consent, whatever else it says: nothing is stored on it.
pub proof fn only_a_yes_is_consent(ack: Json)
    requires
        ack.member("ok"@) != Json::Bool(true),
    ensures
        refuses(ack),
{
}

/// With no offer outstanding no ack answers anything: an offer is answered once.
pub proof fn settled_offer_stays_settled(peer: Seq<char>, ack: Json)
    ensures
        !answers(None, peer, ack),
{
}

/// An offer's own frame is usable exactly when its secret has a secret's length, and
/// what an acceptor stores is that secret: both sides hold the same one.
pub proof fn both_sides_hold_one_secret(o: Offer, display: Seq<char>)
    ensures
        offered_secret(offer_json(o.offer_id@, o.secret@, display)) == o.secret@,
        usable(offer_json(o.offer_id@, o.secret@, display)) == (text::byte_len(o.secret@)
            == SECRET_HEX_LEN),
{
    broadcast use frame::with_sets_one_member;

    reveal_strlit("secret");
    reveal_strlit("name");
    assert("secret"@.len() == 6 && "name"@.len() == 4);
}

/// A frame that carries an offer has no members but its type, version, id, secret and
/// proposed name: no grant and no role.
pub proof fn offer_carries_no_grant(
    offer_id: Seq<char>,
    secret: Seq<char>,
    display: Seq<char>,
    key: Seq<char>,
)
    requires
        key != "type"@,
        key != "v"@,
        key != "offer_id"@,
        key != "secret"@,
        key != "name"@,
    ensures
        offer_json(offer_id, secret, display).member(key) is Null,
{
}

/// What survives cleaning is made of name characters only.
proof fn name_chars_are_name_chars(s: Seq<char>)
    ensures
        forall|i: int| 0 <= i < name_chars(s).len() ==> is_name_char(#[trigger] name_chars(s)[i]),
    decreases s.len(),
{
    if s.len() > 0 {
        name_chars_are_name_chars(s.drop_last());
        let before = name_chars(s.drop_last());
        assert(forall|i: int| 0 <= i < before.len() ==> is_name_char(#[trigger] before[i]));
    }
}

/// Whatever the peer proposes and however the link is called, a petname is not empty,
/// is no longer than `PETNAME_MAX` and holds name characters only.
pub proof fn petname_is_a_device_name(proposed: Option<Seq<char>>, fallback: Seq<char>)
    ensures
        0 < petname_of(proposed, fallback).len() <= PETNAME_MAX,
        forall|i: int|
            0 <= i < petname_of(proposed, fallback).len() ==> is_name_char(
                #[trigger] petname_of(proposed, fallback)[i],
            ),
{
    reveal_strlit("device");
    if proposed is Some {
        name_chars_are_name_chars(proposed->0);
    }
    name_chars_are_name_chars(fallback);
}

} // verus!
