//! Remembering each other: whose secret is kept, on whose word, and under which name.

use vstd::prelude::*;
use vstd::string::*;
use crate::frame;
use crate::hexadecimal;
use crate::keyed;
use crate::pairing::{
    challenge_frame, fresh_challenge, fresh_link, introduction, keep_answer, keep_frame, match_proof,
    needs_proof, Command, Introduction, Keep, KeepAcked, KnownProof, LinkStep, PairSession,
};
use crate::remember;
use crate::remember::{
    ack_frame, answer_offer, apply_ack, at_end, ceremony_over, first_version, judge_ack, judge_offer,
    make_offer, offer_frame, petname, Ack, AckStep, Answer, AnswerStep, Offer, Outcome,
};
use crate::text;

verus! {

broadcast use frame::with_sets_one_member;

proof fn keys_are_apart()
    ensures
        "v"@.len() == 1,
        "ok"@.len() == 2,
        "name"@.len() == 4,
        "name"@[0] == 'n',
        "type"@.len() == 4,
        "type"@[0] == 't',
        "nonce"@.len() == 5,
        "secret"@.len() == 6,
        "offer_id"@.len() == 8,
        "receiver_device_pub"@.len() == 19,
{
    reveal_strlit("v");
    reveal_strlit("ok");
    reveal_strlit("name");
    reveal_strlit("type");
    reveal_strlit("nonce");
    reveal_strlit("secret");
    reveal_strlit("offer_id");
    reveal_strlit("receiver_device_pub");
}
proof fn commands_are_apart()
    ensures
        "code"@.len() == 4,
        "code"@[0] == 'c',
        "pair"@.len() == 4,
        "pair"@[0] == 'p',
        "devices"@.len() == 7,
        "devices"@[0] == 'd',
        "forget "@.len() == 7,
        "forget "@[0] == 'f',
{
    reveal_strlit("code");
    reveal_strlit("pair");
    reveal_strlit("devices");
    reveal_strlit("forget ");
}

/// An offer to be remembered is known by the first sixteen characters of a fresh secret, carries
/// another, and is for this peer under this name.
pub proof fn an_offer_is_made_of_fresh_secrets(
    name: &str,
    peer: &str,
    fresh_id: &str,
    fresh_secret: &str,
    o: Offer,
)
    requires
        call_ensures(make_offer, (name, peer, fresh_id, fresh_secret), o),
        fresh_id@.len() >= 16,
    ensures
        o.offer_id@.len() == 16,
        forall|i: int| 0 <= i < 16 ==> o.offer_id@[i] == fresh_id@[i],
        o.secret@ == fresh_secret@,
        o.name@ == name@,
        o.peer@ == peer@,
{
}

/// The frame of an offer carries its id, its secret and the proposed name, in the second version.
pub proof fn an_offer_carries_its_secret(o: Offer, display: &str, v: serde_json::Value)
    requires
        call_ensures(offer_frame, (&o, display), v),
    ensures
        frame::json(v).member("type"@) == frame::Json::Text("pair-keep"@),
        frame::json(v).member("v"@) == frame::Json::Number(Some(2)),
        frame::json(v).member("offer_id"@) == frame::Json::Text(o.offer_id@),
        frame::json(v).member("secret"@) == frame::Json::Text(o.secret@),
        frame::json(v).member("name"@) == frame::Json::Text(display@),
{
    keys_are_apart();
}

/// A frame is of the first version where it says so or says nothing of it.
pub proof fn the_first_version_may_be_silent(v: serde_json::Value, r: bool)
    requires
        call_ensures(first_version, (&v,), r),
    ensures
        frame::json(v).member("v"@) is Null ==> r,
        frame::json(v).member("v"@) == frame::Json::Number(Some(1)) ==> r,
        frame::json(v).member("v"@) == frame::Json::Number(Some(2)) ==> !r,
        r ==> frame::json(v).member("v"@) is Null || frame::json(v).member("v"@)
            == frame::Json::Number(Some(1)),
{
}

/// The ack is for the outstanding offer: from the peer it went to, and by its id; only one of the
/// first version may leave the id out.
pub open spec fn is_for(o: Offer, peer: Seq<char>, v: frame::Json) -> bool {
    &&& o.peer@ == peer
    &&& v.member("offer_id"@) == frame::Json::Text(o.offer_id@) || (v.member("offer_id"@) !is Text && (
    v.member("v"@) is Null || v.member("v"@) == frame::Json::Number(Some(1))))
}

/// Our own secret is stored only on a yes to the very offer that carried it, and then it is that
/// secret under the name it was made with.
pub proof fn only_a_yes_to_our_offer_stores(
    pending: Option<Offer>,
    peer: &str,
    v: serde_json::Value,
    r: AckStep,
)
    requires
        call_ensures(judge_ack, (&pending, peer, &v), r),
    ensures
        pending is None ==> r is Unmatched,
        pending is Some ==> {
            let mine = is_for(pending->0, peer@, frame::json(v));
            let yes = frame::json(v).member("ok"@) == frame::Json::Bool(true);
            &&& !mine ==> r is Unmatched
            &&& mine && yes ==> r is Store
            &&& mine && !yes ==> r is Decline
        },
        r matches AckStep::Store { name, secret } ==> name@ == pending->0.name@ && secret@
            == pending->0.secret@,
{
}

/// Settling an ack takes the offer back where it was answered, and leaves it where it was not or
/// where the record could not be stored.
pub proof fn an_offer_is_settled_once(
    pending: &mut Option<Offer>,
    peer: &str,
    v: serde_json::Value,
    stored: Result<(), String>,
    r: Result<Ack, String>,
)
    requires
        call_ensures(apply_ack, (pending, peer, &v, stored), r),
    ensures
        *old(pending) is None ==> r == Ok::<Ack, String>(Ack::Unmatched),
        *old(pending) is Some ==> {
            let o = (*old(pending))->0;
            let mine = is_for(o, peer@, frame::json(v));
            let yes = frame::json(v).member("ok"@) == frame::Json::Bool(true);
            &&& !mine ==> r == Ok::<Ack, String>(Ack::Unmatched) && *final(pending) == *old(pending)
            &&& mine && !yes ==> r == Ok::<Ack, String>(Ack::Declined) && *final(pending) is None
            &&& mine && yes && stored is Ok ==> (r matches Ok(Ack::Accepted { name, secret }) && name@
                == o.name@ && secret@ == o.secret@) && *final(pending) is None
            &&& mine && yes && stored is Err ==> r is Err && r->Err_0 == stored->Err_0 && *final(pending) == *old(pending)
        },
{
}

/// An ack echoes the id of the offer it answers and says yes or no in so many words.
pub proof fn an_ack_echoes_its_offer(offer: serde_json::Value, ok: bool, v: serde_json::Value)
    requires
        call_ensures(ack_frame, (&offer, ok), v),
    ensures
        frame::json(v).member("type"@) == frame::Json::Text("pair-keep-ack"@),
        frame::json(v).member("ok"@) == frame::Json::Bool(ok),
        frame::json(offer).member("offer_id"@) matches frame::Json::Text(id) ==> frame::json(v).member(
            "offer_id"@,
        ) == frame::Json::Text(id) && frame::json(v).member("v"@) == frame::Json::Number(Some(2)),
        frame::json(offer).member("offer_id"@) !is Text ==> frame::json(v).member("offer_id"@) is Null
            && frame::json(v).member("v"@) is Null,
{
    keys_are_apart();
}

/// What one side offers and the other answers settles that offer and no other: a yes is taken for a
/// yes and a no for a no.
pub proof fn an_ack_settles_the_offer_it_answers(
    o: Offer,
    display: &str,
    f: serde_json::Value,
    ok: bool,
    a: serde_json::Value,
    peer: &str,
    r: AckStep,
)
    requires
        call_ensures(offer_frame, (&o, display), f),
        call_ensures(ack_frame, (&f, ok), a),
        call_ensures(judge_ack, (&Some(o), peer, &a), r),
    ensures
        peer@ == o.peer@ && ok ==> r is Store,
        peer@ == o.peer@ && !ok ==> r is Decline,
        peer@ != o.peer@ ==> r is Unmatched,
{
    keys_are_apart();
}

/// An offer is kept only with consent: a name of the operator's, or a yes to everything. What is
/// kept is the secret that was offered.
pub proof fn only_consent_keeps_an_offer(
    offer: serde_json::Value,
    remember: Option<&str>,
    yes: bool,
    peer_name: &str,
    r: AnswerStep,
    s: Seq<char>,
)
    requires
        call_ensures(judge_offer, (&offer, remember, yes, peer_name), r),
    ensures
        frame::json(offer).member("secret"@) == frame::Json::Text(s) && text::byte_len(s) != 64
            ==> r is Ignore,
        frame::json(offer).member("secret"@) == frame::Json::Text(s) && text::byte_len(s) == 64 ==> {
            &&& remember is None && !yes ==> r is Refuse
            &&& remember is Some || yes ==> r is Store
            &&& r is Store ==> r->secret@ == s
        },
        r is Store && remember is Some ==> r->name@ == remember->0@,
        r matches AnswerStep::Refuse { why } ==> why@ == peer_name@
            + " offered to be remembered; nothing was stored. Re-run with --remember <name> (or --yes) to accept"@,
{
}

/// Without a word of the operator the name is made of the proposal.
pub proof fn a_kept_name_is_a_petname(
    offer: serde_json::Value,
    peer_name: &str,
    r: AnswerStep,
    proposed: &str,
    p: String,
)
    requires
        call_ensures(judge_offer, (&offer, None, true, peer_name), r),
        frame::json(offer).member("name"@) == frame::Json::Text(proposed@),
        call_ensures(petname, (Some(proposed), peer_name), p),
        r is Store,
    ensures
        r->name@ == p@,
{
}

/// Settling an offer does what judging it asked for, and reports a store that failed.
pub proof fn an_answer_is_what_was_judged(
    offer: serde_json::Value,
    remember: Option<&str>,
    yes: bool,
    peer_name: &str,
    stored: Result<(), String>,
    j: AnswerStep,
    r: Result<Answer, String>,
    k: Option<bool>,
)
    requires
        call_ensures(judge_offer, (&offer, remember, yes, peer_name), j),
        call_ensures(answer_offer, (&offer, remember, yes, peer_name, stored), r),
        r is Ok ==> call_ensures(Answer::ok, (&r->Ok_0,), k),
    ensures
        j is Ignore ==> r == Ok::<Answer, String>(Answer::Ignored) && k is None,
        j is Refuse ==> (r matches Ok(Answer::Refused { why }) && why@ == j->why@) && k == Some(false),
        j is Store && stored is Err ==> r is Err && r->Err_0 == stored->Err_0,
        j is Store && stored is Ok ==> (r matches Ok(Answer::Kept { name, secret }) && name@ == j->name@
            && secret@ == j->secret@) && k == Some(true),
{
}

proof fn cleaned_is_of(s: Seq<char>)
    ensures
        remember::name_chars(s).len() <= s.len(),
        (forall|i: int| 0 <= i < s.len() ==> name_sign(#[trigger] s[i])) ==> remember::name_chars(s) == s,
        (forall|i: int| 0 <= i < s.len() ==> !name_sign(#[trigger] s[i])) ==> remember::name_chars(
            s,
        ).len() == 0,
        forall|i: int|
            0 <= i < remember::name_chars(s).len() ==> name_sign(#[trigger] remember::name_chars(s)[i]),
    decreases s.len(),
{
    if s.len() > 0 {
        let t = s.drop_last();
        cleaned_is_of(t);
        if forall|i: int| 0 <= i < s.len() ==> name_sign(#[trigger] s[i]) {
            assert forall|i: int| 0 <= i < t.len() implies name_sign(#[trigger] t[i]) by {
                assert(name_sign(s[i]));
            }
            assert(name_sign(s[s.len() - 1]));
            assert(t.push(s.last()) =~= s);
        }
        if forall|i: int| 0 <= i < s.len() ==> !name_sign(#[trigger] s[i]) {
            assert forall|i: int| 0 <= i < t.len() implies !name_sign(#[trigger] t[i]) by {
                assert(!name_sign(s[i]));
            }
            assert(!name_sign(s[s.len() - 1]));
        }
    } else {
        assert(remember::name_chars(s) =~= s);
    }
}

/// A sign that a device name may have.
pub open spec fn name_sign(c: char) -> bool {
    '0' <= c <= '9' || 'A' <= c <= 'Z' || 'a' <= c <= 'z' || c == '-' || c == '_' || c == '.'
}

/// A proposal that is fit to be a name is one as it is; one without a fit sign gives way to the name
/// of the link, and that to "device". Whatever is proposed, a petname is fit, not empty and no
/// longer than forty.
pub proof fn a_petname_is_fit(proposed: Option<&str>, fallback: &str, r: String)
    requires
        call_ensures(petname, (proposed, fallback), r),
    ensures
        0 < r@.len() <= 40,
        forall|i: int| 0 <= i < r@.len() ==> name_sign(#[trigger] r@[i]),
        (proposed matches Some(p) && 0 < p@.len() <= 40 && forall|i: int|
            0 <= i < p@.len() ==> name_sign(#[trigger] p@[i])) ==> r@ == proposed->0@,
        proposed is None && 0 < fallback@.len() <= 40 && (forall|i: int|
            0 <= i < fallback@.len() ==> name_sign(#[trigger] fallback@[i])) ==> r@ == fallback@,
        proposed is None && fallback@.len() == 0 ==> r@ == "device"@,
{
    reveal_strlit("device");
    cleaned_is_of(fallback@);
    if proposed is Some {
        cleaned_is_of(proposed->0@);
    }
    remember::petname_is_a_device_name(
        match proposed {
            Some(p) => Some(p@),
            None => None,
        },
        fallback@,
    );
    assert forall|i: int| 0 <= i < r@.len() implies name_sign(#[trigger] r@[i]) by {
        assert(remember::is_name_char(r@[i]));
    }
}

/// What is said of a ceremony claims a record only where there is one.
pub proof fn only_a_record_is_claimed(o: Outcome, s: bool, l: String)
    requires
        call_ensures(Outcome::stored, (&o,), s),
        call_ensures(Outcome::line, (&o,), l),
    ensures
        s <==> o is Remembered,
        o matches Outcome::Remembered(n) ==> l@ == "remembered as '"@ + n@
            + "'. it is in `filament devices` and survives a restart; find each other with no code"@,
        o is Declined ==> l@
            == "not remembered: the other side declined. nothing was stored here or there"@,
        o is Unanswered ==> l@
            == "not remembered: the other side never answered, so nothing was stored (it needs --remember <name> or --yes)"@,
        o is NoPeer ==> l@
            == "not remembered: no peer was reached, so nothing was offered and nothing was stored"@,
{
}

/// Silence is no consent: a ceremony that nothing came of is unanswered, or was never offered.
pub proof fn silence_stores_nothing(seen: Option<Outcome>, offered: bool, r: Outcome, now: u64, deadline: u64, over: bool)
    requires
        call_ensures(at_end, (seen, offered), r),
        call_ensures(ceremony_over, (&seen, now, deadline), over),
    ensures
        seen is Some ==> r == seen->0 && over,
        seen is None && offered ==> r is Unanswered,
        seen is None && !offered ==> r is NoPeer,
        seen is None ==> (over <==> deadline <= now),
{
}

/// What the operator types: the words of the session are obeyed, what looks like a code is claimed,
/// one at a time, and anything else gets a hint.
pub proof fn the_session_obeys_its_words(
    s: &mut PairSession,
    ans: String,
    blank: bool,
    is_code: bool,
    devices: Vec<String>,
    daemon: bool,
    r: Command,
)
    requires
        call_ensures(PairSession::obey, (s, ans, blank, is_code, &devices, daemon), r),
    ensures
        ans@ == "devices"@ ==> r is Devices && *final(s) == *old(s),
        ans@ == "pair"@ || ans@ == "code"@ ==> r is Mint && final(s).claim_in_flight == old(
            s,
        ).claim_in_flight && final(s).paired == old(s).paired && (daemon ==> final(s).ceremony
            == Some(true)) && (!daemon ==> final(s).ceremony == old(s).ceremony),
        !is_word(ans@) && is_code && old(s).claim_in_flight ==> r is Busy && *final(s) == *old(s),
        !is_word(ans@) && is_code && !old(s).claim_in_flight ==> (r matches Command::Claim { code }
            && code@ == ans@) && final(s).claim_in_flight && final(s).paired && (daemon ==> final(s).ceremony == Some(false)) && (!daemon ==> final(s).ceremony == old(s).ceremony),
        !is_word(ans@) && !is_code && !blank ==> r is Hint && *final(s) == *old(s),
        !is_word(ans@) && !is_code && blank ==> r is Nothing && *final(s) == *old(s),
        final(s).ceremony_secret == old(s).ceremony_secret,
        final(s).ceremony_pid == old(s).ceremony_pid,
{
    commands_are_apart();
}

/// A word of the session.
pub open spec fn is_word(ans: Seq<char>) -> bool {
    ans == "devices"@ || ans == "pair"@ || ans == "code"@ || text::begins(ans, "forget "@)
}

/// A device is forgotten by its name, where there is one of that name.
pub proof fn a_known_device_is_forgotten(
    s: &mut PairSession,
    ans: String,
    blank: bool,
    is_code: bool,
    devices: Vec<String>,
    daemon: bool,
    r: Command,
    name: Seq<char>,
    i: int,
)
    requires
        call_ensures(PairSession::obey, (s, ans, blank, is_code, &devices, daemon), r),
        ans@ == "forget "@ + name,
    ensures
        *final(s) == *old(s),
        0 <= i < devices@.len() && devices@[i]@ == text::trimmed(name) ==> (
        r matches Command::Forget { name: n } && n@ == text::trimmed(name)),
        (forall|j: int| 0 <= j < devices@.len() ==> (#[trigger] devices@[j])@ != text::trimmed(name))
            ==> (r matches Command::NoSuchDevice { line } && line@ == "  no device named '"@
            + text::trimmed(name) + "' (try `devices`)"@),
{
    commands_are_apart();
    assert(ans@.subrange(0, "forget "@.len() as int) =~= "forget "@);
    assert(ans@.subrange("forget "@.len() as int, ans@.len() as int) =~= name);
    if 0 <= i < devices@.len() && devices@[i]@ == text::trimmed(name) {
        assert(keyed::listed(devices@, text::trimmed(name)));
    }
}

/// The line is taken in small letters.
pub proof fn a_line_is_obeyed_in_small_letters(
    s: &mut PairSession,
    line: &str,
    is_code: bool,
    devices: Vec<String>,
    daemon: bool,
    r: Command,
)
    requires
        call_ensures(PairSession::command, (s, line, is_code, &devices, daemon), r),
    ensures
        text::lowercase(line@) == "devices"@ ==> r is Devices,
        text::lowercase(line@) == "pair"@ || text::lowercase(line@) == "code"@ ==> r is Mint,
        r is Mint ==> text::lowercase(line@) == "pair"@ || text::lowercase(line@) == "code"@,
        r matches Command::Claim { code } ==> is_code && !old(s).claim_in_flight && code@
            == text::lowercase(line@),
        !is_word(text::lowercase(line@)) && !is_code && line@.len() > 0 ==> r is Hint,
        line@.len() == 0 && !is_word(text::lowercase(line@)) && !is_code ==> r is Nothing,
{
    commands_are_apart();
}

/// A claim is over once the server matched it, or once it was rejected; only then can it be made
/// again, and only a rejected one leaves us unpaired.
pub proof fn a_claim_is_settled(m: &mut PairSession, x: &mut PairSession)
    requires
        call_ensures(PairSession::matched, (m,), ()),
        call_ensures(PairSession::rejected, (x,), ()),
    ensures
        !final(m).claim_in_flight && final(m).paired == old(m).paired,
        !final(x).claim_in_flight && !final(x).paired,
        final(m).ceremony == old(m).ceremony && final(m).ceremony_pid == old(m).ceremony_pid && final(m).ceremony_secret == old(m).ceremony_secret,
        final(x).ceremony == old(x).ceremony && final(x).ceremony_pid == old(x).ceremony_pid && final(x).ceremony_secret == old(x).ceremony_secret,
{
}

/// A session begins unpaired, unless a code was given, with its own secret and no ceremony.
pub proof fn a_session_begins(code: bool, secret: &str, r: PairSession)
    requires
        call_ensures(PairSession::new, (code, secret), r),
    ensures
        r.paired == code,
        !r.claim_in_flight,
        r.ceremony is None,
        r.ceremony_pid is None,
        r.ceremony_secret@ == secret@,
{
}

/// The side that made the code hands over its secret at once; the side that typed it waits. Nobody
/// else does either, and a secret is handed over once.
pub proof fn one_side_hands_over_at_once(
    s: &mut PairSession,
    t: &mut PairSession,
    pid: &str,
    other: &str,
    fresh: bool,
    r: LinkStep,
    again: LinkStep,
)
    requires
        call_ensures(PairSession::link_up, (s, pid, fresh), r),
        *old(t) == *final(s),
        call_ensures(PairSession::link_up, (t, other, true), again),
    ensures
        r is Offer <==> fresh && old(s).ceremony == Some(true),
        r is Wait <==> fresh && old(s).ceremony == Some(false),
        r is Offer ==> final(s).ceremony is None && final(s).ceremony_pid is Some && final(s).ceremony_pid->0@ == pid@ && final(s).ceremony_secret == old(s).ceremony_secret && again is Nothing,
        r !is Offer ==> *final(s) == *old(s),
{
}

/// Whoever waited in vain hands over its own secret, once.
pub proof fn whoever_waited_hands_over(s: &mut PairSession, t: &mut PairSession, pid: &str, other: &str, r: bool, again: bool)
    requires
        call_ensures(PairSession::fallback, (s, pid), r),
        *old(t) == *final(s),
        call_ensures(PairSession::fallback, (t, other), again),
    ensures
        r <==> old(s).ceremony == Some(false),
        !again,
        r ==> final(s).ceremony is None && final(s).ceremony_pid is Some && final(s).ceremony_pid->0@
            == pid@ && final(s).ceremony_secret == old(s).ceremony_secret,
        !r ==> *final(s) == *old(s),
{
}

/// An offered secret is kept with consent: a name of the operator's, a ceremony that waits for one,
/// or a yes to everything.
pub proof fn a_secret_is_kept_with_consent(
    s: &mut PairSession,
    v: serde_json::Value,
    remember: Option<&str>,
    yes: bool,
    link: Option<&str>,
    r: Keep,
    secret: Seq<char>,
)
    requires
        call_ensures(PairSession::keep_offered, (s, &v, remember, yes, link), r),
        frame::json(v).member("secret"@) == frame::Json::Text(secret),
    ensures
        text::byte_len(secret) != 64 ==> r is Ignore,
        text::byte_len(secret) == 64 ==> {
            let waits = old(s).ceremony == Some(false);
            &&& remember is Some || waits || yes ==> r is Store && r->secret@ == secret
            &&& remember is None && !waits && !yes ==> r is Refuse
            &&& remember is Some && r is Store ==> r->name@ == remember->0@ && !r->ceremony
            &&& remember is None && waits && r is Store ==> r->ceremony && (link is Some ==> r->name@
                == link->0@) && (link is None ==> r->name@ == "device"@)
        },
        r is Refuse && link is Some ==> r->line@ == link->0@
            + " offered to be remembered; nothing was stored. Re-run with --remember <name> (or --yes) to accept"@,
        r is Store && r->ceremony ==> final(s).ceremony is None,
        !(r is Store && r->ceremony) ==> *final(s) == *old(s),
        final(s).paired == old(s).paired && final(s).claim_in_flight == old(s).claim_in_flight
            && final(s).ceremony_secret == old(s).ceremony_secret,
{
}

/// An answer to our secret counts from the peer it was handed to, once, and what is stored then is
/// that secret.
pub proof fn an_answer_to_our_secret_counts_once(
    s: &mut PairSession,
    pid: &str,
    v: serde_json::Value,
    link: Option<&str>,
    fresh: &str,
    r: KeepAcked,
)
    requires
        call_ensures(PairSession::keep_acked, (s, pid, &v, link, fresh), r),
    ensures
        ({
            let ours = old(s).ceremony_pid is Some && old(s).ceremony_pid->0@ == pid@;
            let yes = frame::json(v).member("ok"@) == frame::Json::Bool(true);
            &&& !ours ==> r is NotOurs && *final(s) == *old(s)
            &&& ours && yes ==> r is Store && final(s).ceremony_secret@ == fresh@
            &&& ours && !yes ==> r is Declined && final(s).ceremony_secret == old(s).ceremony_secret
            &&& ours ==> final(s).ceremony_pid is None
        }),
        r matches KeepAcked::Store { name, secret } ==> secret@ == old(s).ceremony_secret@ && (link
            is Some ==> name@ == link->0@) && (link is None ==> name@ == "device"@),
        final(s).paired == old(s).paired && final(s).ceremony == old(s).ceremony,
{
}

/// The frame that hands over a secret carries it, and the answer to it says whether it was kept.
pub proof fn a_secret_is_handed_over_and_answered(
    secret: &str,
    f: serde_json::Value,
    offer: serde_json::Value,
    k: Keep,
    a: Option<serde_json::Value>,
)
    requires
        call_ensures(keep_frame, (secret,), f),
        call_ensures(keep_answer, (&offer, &k), a),
    ensures
        frame::json(f).member("type"@) == frame::Json::Text("pair-keep"@),
        frame::json(f).member("secret"@) == frame::Json::Text(secret@),
        k is Ignore <==> a is None,
        k is Store ==> frame::json(a->0).member("ok"@) == frame::Json::Bool(true),
        k is Refuse ==> frame::json(a->0).member("ok"@) == frame::Json::Bool(false),
        a is Some ==> frame::json(a->0).member("type"@) == frame::Json::Text("pair-keep-ack"@),
        a is Some && frame::json(offer).member("offer_id"@) is Text ==> frame::json(a->0).member(
            "offer_id"@,
        ) == frame::json(offer).member("offer_id"@),
{
    keys_are_apart();
}

/// A link is fresh where there is one to somebody never met: no secret, and none of the fleet.
pub proof fn a_fresh_link_is_to_a_stranger(there: bool, secret: bool, pending: bool, verified: bool, r: bool)
    requires
        call_ensures(fresh_link, (there, secret, pending, verified), r),
    ensures
        secret || pending || verified || !there ==> !r,
        there && !secret && !pending && !verified ==> r,
{
}

/// A proof is that of the first device that would give it, and of nobody where none would or where
/// it is our own.
pub proof fn a_proof_is_whose_it_is(from_self: bool, known: Vec<KnownProof>, mac: &str, r: Option<usize>, k: int)
    requires
        call_ensures(match_proof, (from_self, &known, mac), r),
    ensures
        from_self ==> r is None,
        !from_self && 0 <= k < known@.len() && known@[k].mac@ == mac@ && (forall|j: int|
            0 <= j < k ==> (#[trigger] known@[j]).mac@ != mac@) ==> r is Some && r->0 == k,
        r matches Some(i) ==> known@[i as int].mac@ == mac@,
        (forall|j: int| 0 <= j < known@.len() ==> (#[trigger] known@[j]).mac@ != mac@) ==> r is None,
{
    if r is Some {
        let i = r->0 as int;
        if 0 <= k < known@.len() && known@[k].mac@ == mac@ && (forall|j: int|
            0 <= j < k ==> (#[trigger] known@[j]).mac@ != mac@) {
            if i < k {
                assert(known@[i].mac@ != mac@);
            }
            if k < i {
                assert(known@[k].mac@ != mac@);
            }
            assert(i == k);
        }
    }
}

/// A peer is challenged where capabilities decide, its key is known and it has not proved itself.
pub proof fn whom_to_challenge(authoritative: bool, known: bool, proven: bool, r: bool)
    requires
        call_ensures(needs_proof, (authoritative, known, proven), r),
    ensures
        proven || !known || !authoritative ==> !r,
        authoritative && known && !proven ==> r,
{
}

/// Only a peer that proved itself introduces another, with a secret and a name, and what is stored
/// is those.
pub proof fn only_a_proved_peer_introduces(trusted: bool, v: serde_json::Value, hub: &str, r: Introduction, name: Seq<char>, secret: Seq<char>)
    requires
        call_ensures(introduction, (trusted, &v, hub), r),
    ensures
        !trusted ==> r is Ignore,
        frame::json(v).member("name"@) !is Text ==> r is Ignore,
        frame::json(v).member("name"@) == frame::Json::Text(name) && frame::json(v).member("secret"@)
            == frame::Json::Text(secret) ==> {
            &&& trusted && name.len() > 0 && text::byte_len(secret) == 64 ==> (
            r matches Introduction::Store { name: n, secret: s, line } && n@ == name && s@ == secret
                && line@ == "introduced to '"@ + name + "' by "@ + hub@ + ", now a known device"@)
            &&& name.len() == 0 || text::byte_len(secret) != 64 ==> r is Ignore
        },
        r matches Introduction::Ignore { line } ==> line@
            == "  ignored pair-intro from unverified peer "@ + hub@,
{
}

/// A challenge carries the nonce that its answer must hold, and who asks.
pub proof fn a_challenge_carries_its_nonce(nonce: &[u8], own: &[u8], f: serde_json::Value, r: (Vec<u8>, serde_json::Value))
    requires
        call_ensures(challenge_frame, (nonce, own), f),
        call_ensures(fresh_challenge, (own,), r),
    ensures
        frame::json(f).member("type"@) == frame::Json::Text("identity-nonce-challenge"@),
        frame::json(f).member("nonce"@) == frame::Json::Text(hexadecimal::hex_text(nonce@)),
        frame::json(f).member("receiver_device_pub"@) == frame::Json::Text(
            hexadecimal::hex_text(own@),
        ),
        r.0@.len() == 32,
        frame::json(r.1).member("type"@) == frame::Json::Text("identity-nonce-challenge"@),
        frame::json(r.1).member("nonce"@) == frame::Json::Text(hexadecimal::hex_text(r.0@)),
        frame::json(r.1).member("receiver_device_pub"@) == frame::Json::Text(
            hexadecimal::hex_text(own@),
        ),
{
    keys_are_apart();
}

proof fn cleaned_is_filtered(s: Seq<char>)
    ensures
        remember::name_chars(s) == s.filter(|c: char| name_sign(c)),
    decreases s.len(),
{
    reveal(Seq::filter);
    if s.len() > 0 {
        cleaned_is_filtered(s.drop_last());
    } else {
        assert(remember::name_chars(s) =~= s.filter(|c: char| name_sign(c)));
    }
}

/// A petname is what is fit of the proposal, in order and up to forty; where nothing of it is fit, it
/// is what is fit of the name of the link.
pub proof fn a_petname_is_what_is_fit(proposed: &str, fallback: &str, r: String, n: String)
    requires
        call_ensures(petname, (Some(proposed), fallback), r),
        call_ensures(petname, (None, fallback), n),
    ensures
        ({
            let p = proposed@.filter(|c: char| name_sign(c));
            let f = fallback@.filter(|c: char| name_sign(c));
            &&& 0 < p.len() <= 40 ==> r@ == p
            &&& p.len() > 40 ==> r@ == p.subrange(0, 40)
            &&& p.len() == 0 ==> r@ == n@
            &&& 0 < f.len() <= 40 ==> n@ == f
            &&& f.len() > 40 ==> n@ == f.subrange(0, 40)
            &&& f.len() == 0 ==> n@ == "device"@
        }),
{
    cleaned_is_filtered(proposed@);
    cleaned_is_filtered(fallback@);
}

/// On a yes to everything a secret is kept under a petname.
pub proof fn a_secret_is_kept_under_a_petname(s: &mut PairSession, v: serde_json::Value, link: &str, r: Keep, proposed: &str, n: String)
    requires
        call_ensures(PairSession::keep_offered, (s, &v, None, true, Some(link)), r),
        old(s).ceremony != Some(false),
        frame::json(v).member("name"@) == frame::Json::Text(proposed@),
        call_ensures(petname, (Some(proposed), link), n),
        r is Store,
    ensures
        r->name@ == n@,
        !r->ceremony,
        *final(s) == *old(s),
{
}

} // verus!
