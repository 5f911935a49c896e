//! A receiver's session: what each frame makes of it, and when it is over.

use vstd::prelude::*;
use vstd::string::*;
use crate::assembly;
use crate::assembly::{Assembly, Settled};
use crate::candidates;
use crate::candidates::Candidates;
use crate::console::{Answered, Show};
use crate::dispatch::Received;
use crate::fleet_links;
use crate::finish;
use crate::finish::{
    away_secs, code_rejected, done_line, exit_step, interrupted_line, link_change, lost_sender,
    peer_left, recv_transfer_done, state_frame, stuck_again, ExitStep, ExitView, LeftStep, LinkChange,
    Rejected,
};
use crate::frame;
use crate::keyed;
use crate::laws::arriving;
use crate::laws::deciding;
use crate::laws::dispatching;
use crate::pairing::{Command, Introduction, Keep, KeepAcked, LinkStep};
use crate::offer::FileOffer;
use crate::recv_files::{IncomingFile, VerifyResult};
use crate::recv_session;
use crate::recv_session::{
    Act, LinkUp, LinkView, PeerView, RecvPlan, RecvSession, SignalStep, Typed,
};
use crate::streams;
use crate::text;
use crate::candidates::{parse_direct, DirectOffer};
use crate::overlay_links::worker_ports;
use crate::pairing::introduction;
use crate::streams::session_name;

verus! {

broadcast use frame::with_sets_one_member;

proof fn keys_are_apart()
    ensures
        "v"@.len() == 1,
        "ok"@.len() == 2,
        "away"@.len() == 4,
        "away"@[0] == 'a',
        "type"@.len() == 4,
        "type"@[0] == 't',
        "secret"@.len() == 6,
        "trusted"@.len() == 7,
        "offer_id"@.len() == 8,
        "transfers"@.len() == 9,
{
    reveal_strlit("v");
    reveal_strlit("ok");
    reveal_strlit("away");
    reveal_strlit("type");
    reveal_strlit("secret");
    reveal_strlit("trusted");
    reveal_strlit("offer_id");
    reveal_strlit("transfers");
}
proof fn signals_are_apart()
    ensures
        "pake-msg"@.len() == 8,
        "pake-confirm"@.len() == 12,
        "transport-offer"@.len() == 15,
{
    reveal_strlit("pake-msg");
    reveal_strlit("pake-confirm");
    reveal_strlit("transport-offer");
}
proof fn answers_are_apart()
    ensures
        "n"@.len() == 1,
        "n"@[0] == 'n',
        "y"@.len() == 1,
        "y"@[0] == 'y',
        "no"@.len() == 2,
        "yes"@.len() == 3,
        "code"@.len() == 4,
        "code"@[0] == 'c',
        "pair"@.len() == 4,
        "pair"@[0] == 'p',
        "cancel"@.len() == 6,
        "devices"@.len() == 7,
        "devices"@[0] == 'd',
        "forget "@.len() == 7,
        "forget "@[0] == 'f',
{
    reveal_strlit("n");
    reveal_strlit("y");
    reveal_strlit("no");
    reveal_strlit("yes");
    reveal_strlit("code");
    reveal_strlit("pair");
    reveal_strlit("cancel");
    reveal_strlit("devices");
    reveal_strlit("forget ");
}

/// A frame says that it is of this type.
pub open spec fn says(f: serde_json::Value, t: Seq<char>) -> bool {
    dispatching::says(f, t)
}

/// What is for those who serve is handed on to them as what its type says, and changes nothing.
pub proof fn what_is_served_is_handed_on(
    s: &mut RecvSession,
    pid: &str,
    f: serde_json::Value,
    hello: &str,
    p: PeerView,
    token: &str,
    nonce: Option<Vec<u8>>,
    fresh: &str,
    now: u64,
    r: Act,
)
    requires
        call_ensures(RecvSession::hear, (s, pid, &f, hello, &p, token, nonce, fresh, now), r),
        !says(f, hello@),
    ensures
        says(f, "fleet-policy"@) ==> r == Act::Serve(Received::FleetPolicy) && *final(s) == *old(s),
        says(f, "identity-nonce-challenge"@) ==> r == Act::Serve(Received::IdentityChallenge) && *final(s) == *old(s),
        says(f, "identity-expose"@) ==> r == Act::Serve(Received::IdentityExpose) && *final(s) == *old(s),
        says(f, "wg-key"@) ==> r == Act::Serve(Received::TunnelKey) && *final(s) == *old(s),
        says(f, "identity-cert-renew-request"@) ==> r == Act::Serve(Received::RenewRequest) && *final(s) == *old(s),
        says(f, "identity-cert-renew-ack"@) ==> r == Act::Serve(Received::RenewAck) && *final(s) == *old(s),
        says(f, "identity-cert-renew-error"@) ==> r == Act::Serve(Received::RenewError) && *final(s) == *old(s),
        says(f, "identity-auth-key-enroll-request"@) ==> r == Act::Serve(Received::EnrollRequest) && *final(s) == *old(s),
        says(f, "identity-auth-key-enroll-response"@) ==> r == Act::Serve(Received::EnrollResponse) && *final(s) == *old(s),
        says(f, "depart"@) ==> r == Act::Serve(Received::Depart) && *final(s) == *old(s),
        says(f, "roster"@) ==> r == Act::Serve(Received::Roster) && *final(s) == *old(s),
        says(f, "l2-close"@) && p.linked ==> r == Act::Serve(Received::Forward) && *final(s) == *old(s),
        says(f, "shell-bootstrap-ack"@) && p.linked ==> r == Act::Serve(Received::BootstrapAck) && *final(s) == *old(s),
        says(f, "shell-bootstrap-deny"@) && p.linked ==> r == Act::Serve(Received::BootstrapDeny) && *final(s) == *old(s),
        says(f, "shell-bootstrap"@) && p.linked ==> r == Act::Serve(Received::Bootstrap) && *final(s) == *old(s),
        says(f, "pty-open"@) && p.linked ==> r == Act::Serve(Received::Pty) && *final(s) == *old(s),
        says(f, "l2-open-ack"@) && p.linked && old(s).plan.streams ==> r == Act::Serve(Received::OpenAck) && *final(s) == *old(s),
        says(f, "l2-open-ack"@) && p.linked && !old(s).plan.streams ==> r is Nothing,
        says(f, "l2-open"@) && p.linked && old(s).plan.streams ==> r == Act::Serve(Received::Forward) && *final(s) == *old(s),
        says(f, "l2-open"@) && p.linked && !old(s).plan.streams ==> r == Act::Serve(Received::StreamOff),
        says(f, "exec-open"@) && p.linked && old(s).plan.streams ==> r == Act::Serve(Received::Exec) && *final(s) == *old(s),
        says(f, "exec-open"@) && p.linked && !old(s).plan.streams ==> r == Act::Serve(Received::StreamOff),
        says(f, "ssh-sign-request"@) && p.linked && old(s).plan.streams ==> r == Act::Serve(Received::SshSign) && *final(s) == *old(s),
        says(f, "ssh-sign-request"@) && p.linked && !old(s).plan.streams ==> r == Act::Serve(Received::StreamOff),
        says(f, "mount-open"@) && p.linked && old(s).plan.streams ==> r == Act::Serve(Received::Mount) && *final(s) == *old(s),
        says(f, "mount-open"@) && p.linked && !old(s).plan.streams ==> r is Nothing,
{
    dispatching::types_are_apart();
}

/// From whom there is no link to, nothing about transfers, secrets, streams or shells is heard.
pub proof fn strangers_change_nothing(
    s: &mut RecvSession,
    pid: &str,
    f: serde_json::Value,
    hello: &str,
    p: PeerView,
    token: &str,
    nonce: Option<Vec<u8>>,
    fresh: &str,
    now: u64,
    r: Act,
)
    requires
        call_ensures(RecvSession::hear, (s, pid, &f, hello, &p, token, nonce, fresh, now), r),
        !p.linked,
    ensures
        !(r is Resize || r is End || r is Away || r is Back || r is Keep || r is HandOver || r is Kept
            || r is Proof || r is Introduced || r is Held || r is Look || r is Complete),
        final(s).assembly == old(s).assembly,
        final(s).pair == old(s).pair,
        final(s).candidates == old(s).candidates,
        final(s).terminals == old(s).terminals,
        final(s).questions == old(s).questions,
        final(s).plan == old(s).plan,
{
}

/// Nothing that is listened to is heard in a frame without a type, and nothing changes.
pub proof fn a_frame_without_a_type_is_not_heard(
    s: &mut RecvSession,
    pid: &str,
    f: serde_json::Value,
    hello: &str,
    p: PeerView,
    token: &str,
    nonce: Option<Vec<u8>>,
    fresh: &str,
    now: u64,
    r: Act,
)
    requires
        call_ensures(RecvSession::hear, (s, pid, &f, hello, &p, token, nonce, fresh, now), r),
        frame::json(f).member("type"@) !is Text,
    ensures
        r is Nothing,
        *final(s) == *old(s),
{
}

/// An offer is read from the sender that may offer, kept while its ceremony runs, put off while its
/// fleet identity is open, and dropped otherwise.
pub proof fn an_offer_is_heard_from_who_may_offer(
    s: &mut RecvSession,
    pid: &str,
    f: serde_json::Value,
    hello: &str,
    p: PeerView,
    token: &str,
    nonce: Option<Vec<u8>>,
    fresh: &str,
    now: u64,
    r: Act,
    o: FileOffer,
)
    requires
        old(s).wf(),
        call_ensures(RecvSession::hear, (s, pid, &f, hello, &p, token, nonce, fresh, now), r),
        says(f, "file-offer"@),
        !says(f, hello@),
        p.linked,
    ensures
        ({
            let code = old(s).plan.code_path;
            let found = old(s).candidates.settled;
            let may = !code || (found && p.bound);
            let runs = old(s).candidates.deadlines@.contains_key(pid@);
            let waited = frame::json(f).member("__fleet_waited"@) == frame::Json::Bool(true);
            &&& !p.ready ==> r is Nothing && *final(s) == *old(s)
            &&& p.ready && may && (!p.undecided || waited) ==> r is Look && *final(s) == *old(s)
            &&& p.ready && may && p.undecided && !waited ==> r is Held && final(s).fleet.deferred@.len() == old(s).fleet.deferred@.len() + 1 && final(s).fleet.deferred@.last().pid@ == pid@ && frame::json(
                final(s).fleet.deferred@.last().offer,
            ) == frame::json(f) && final(s).candidates == old(s).candidates && (now + old(
                s,
            ).plan.grace <= u64::MAX ==> final(s).fleet.deferred@.last().deadline == now + old(
                s,
            ).plan.grace)
            &&& p.ready && !may && !found && runs ==> r is Held && final(s).candidates.offers@.contains_key(pid@) && frame::json(
                final(s).candidates.offers@[pid@],
            ) == frame::json(f) && final(s).fleet == old(s).fleet
            &&& p.ready && !may && (found || !runs) ==> r is Nothing && *final(s) == *old(s)
            &&& r == Act::Look(o) ==> deciding::read_from(f, token@, o)
            &&& final(s).assembly == old(s).assembly && final(s).pair == old(s).pair
        }),
{
    dispatching::types_are_apart();
}

/// The end of a stream is that of the stream it names: its file can be completed, or is once the last
/// write is done.
pub proof fn the_end_of_a_stream_is_heard(
    s: &mut RecvSession,
    pid: &str,
    f: serde_json::Value,
    hello: &str,
    p: PeerView,
    token: &str,
    nonce: Option<Vec<u8>>,
    fresh: &str,
    now: u64,
    r: Act,
    sid: u32,
    k: int,
    j: int,
)
    requires
        old(s).wf(),
        call_ensures(RecvSession::hear, (s, pid, &f, hello, &p, token, nonce, fresh, now), r),
        says(f, "file-end"@),
        !says(f, hello@),
        p.linked,
        frame::json(f).member("sid"@) == frame::Json::Number(Some(sid as u64)),
        arriving::runs_at(old(s).assembly.files@, pid@, sid, k),
        0 <= j < old(s).assembly.files@.len(),
    ensures
        old(s).assembly.files@[k].inflight == 0 ==> r == (Act::Complete { sid }),
        old(s).assembly.files@[k].inflight > 0 ==> r is Nothing && final(s).assembly.files@[k].end_seen,
        final(s).assembly.files@[k].ack_sid == sid,
        final(s).assembly.files@[k].id == old(s).assembly.files@[k].id,
        final(s).assembly.files@[k].part_path == old(s).assembly.files@[k].part_path,
        final(s).assembly.files@.len() == old(s).assembly.files@.len(),
        j != k ==> final(s).assembly.files@[j] == old(s).assembly.files@[j],
        final(s).pair == old(s).pair,
        final(s).fleet == old(s).fleet,
{
    dispatching::types_are_apart();
    let a = old(s).assembly.files@;
    assert(assembly::is_at(a, pid@, sid, k));
    assert(assembly::arriving(a, pid@, sid));
    let i = choose|i: int| #[trigger]
        assembly::is_at(a, pid@, sid, i) && assembly::same_but(a, final(s).assembly.files@, i) && final(s).assembly.files@[i] == (IncomingFile {
            ack_sid: sid,
            end_seen: a[i].end_seen || a[i].inflight > 0,
            ..a[i]
        }) && r == (if a[i].inflight > 0 {
            Act::Nothing
        } else {
            Act::Complete { sid }
        });
    assert(i == k) by {
        if i < k {
            assert(a[i].peer@ == a[k].peer@);
        }
        if k < i {
            assert(a[k].peer@ == a[i].peer@);
        }
    }
}

/// What comes about the link itself is heard as what it says.
pub proof fn what_is_about_the_link_is_heard(
    s: &mut RecvSession,
    pid: &str,
    f: serde_json::Value,
    hello: &str,
    p: PeerView,
    token: &str,
    nonce: Option<Vec<u8>>,
    fresh: &str,
    now: u64,
    r: Act,
    secs: u64,
)
    requires
        old(s).wf(),
        call_ensures(RecvSession::hear, (s, pid, &f, hello, &p, token, nonce, fresh, now), r),
    ensures
        hello@ != "fleet-policy"@ && hello@ != "l3-nonce"@ && says(f, hello@) ==> r is Check && *final(s) == *old(s),
        !says(f, hello@) && says(f, "l3-nonce"@) && nonce is Some && nonce->0@.len() >= 16 ==> r == (
        Act::Announce { greet: !old(s).fleet.verified@.contains_key(pid@) }) && final(s).fleet.bind_theirs@.contains_key(pid@) && final(s).fleet.bind_theirs@[pid@] == nonce->0,
        !says(f, hello@) && says(f, "l3-nonce"@) && !(nonce is Some && nonce->0@.len() >= 16) ==> r
            is Nothing && final(s).fleet.bind_theirs@ == old(s).fleet.bind_theirs@,
        !says(f, hello@) && says(f, "l3-announce"@) && p.overlay && !p.undecided ==> r is Address,
        !says(f, hello@) && says(f, "l3-announce"@) && (!p.overlay || p.undecided) ==> r is Nothing,
        !says(f, hello@) && p.linked && says(f, "back"@) ==> r is Back && *final(s) == *old(s),
        !says(f, hello@) && p.linked && says(f, "state"@) ==> r is Back && *final(s) == *old(s),
        !says(f, hello@) && p.linked && says(f, "brb"@) && frame::json(f).member("ttl"@)
            == frame::Json::Number(Some(secs)) ==> (secs <= 300 ==> r == (Act::Away { secs })) && (secs
            > 300 ==> r == (Act::Away { secs: 300 })),
        !says(f, hello@) && p.linked && says(f, "brb"@) && frame::json(f).member("ttl"@) is Null ==> r
            == (Act::Away { secs: 120 }),
        !says(f, hello@) && p.linked && says(f, "pair-proof"@) ==> r is Proof && *final(s) == *old(s)
            && (frame::json(f).member("mac"@) matches frame::Json::Text(m) ==> r->mac@ == m),
        !says(f, hello@) && says(f, "worker-ports"@) ==> r is Workers && *final(s) == *old(s) && (
        frame::json(f).member("for"@) matches frame::Json::Text(w) ==> r->peer@ == w),
{
    dispatching::types_are_apart();
}

/// A meeting place is taken from a proved device, with the secret it names.
pub proof fn a_meeting_place_is_taken_from_a_proved_device(
    s: &mut RecvSession,
    pid: &str,
    f: serde_json::Value,
    hello: &str,
    p: PeerView,
    token: &str,
    nonce: Option<Vec<u8>>,
    fresh: &str,
    now: u64,
    r: Act,
    secret: Seq<char>,
)
    requires
        old(s).wf(),
        call_ensures(RecvSession::hear, (s, pid, &f, hello, &p, token, nonce, fresh, now), r),
        says(f, "fleet-rendezvous"@),
        !says(f, hello@),
        frame::json(f).member("secret"@) == frame::Json::Text(secret),
    ensures
        *final(s) == *old(s),
        !old(s).fleet.verified@.contains_key(pid@) ==> r is Nothing,
        r is Meet ==> r->secret@ == secret && secret.len() == 64,
        old(s).fleet.verified@.contains_key(pid@) && secret.len() != 64 && secret.len() != 65 ==> r is Nothing,
        old(s).fleet.verified@.contains_key(pid@) && secret.len() == 64 && (forall|i: int|
            0 <= i < secret.len() ==> ('0' <= #[trigger] secret[i] <= '9' || 'a' <= secret[i] <= 'f'))
            ==> r is Meet,
{
    dispatching::types_are_apart();
    if secret.len() == 64 && (forall|i: int|
        0 <= i < secret.len() ==> ('0' <= #[trigger] secret[i] <= '9' || 'a' <= secret[i] <= 'f')) {
        assert(crate::hexadecimal::is_hex(secret)) by {
            assert forall|i: int| 0 <= i < secret.len() implies crate::hexadecimal::hex_value(
                #[trigger] secret[i],
            ) is Some by {}
        }
    }
}

/// A secret that is offered is kept as the session's plan and ceremony allow, and the peer is told
/// whether it was.
pub proof fn an_offered_secret_is_kept_with_consent(
    s: &mut RecvSession,
    pid: &str,
    f: serde_json::Value,
    hello: &str,
    p: PeerView,
    token: &str,
    nonce: Option<Vec<u8>>,
    fresh: &str,
    now: u64,
    r: Act,
    secret: Seq<char>,
)
    requires
        old(s).wf(),
        call_ensures(RecvSession::hear, (s, pid, &f, hello, &p, token, nonce, fresh, now), r),
        says(f, "pair-keep"@),
        !says(f, hello@),
        p.linked,
        frame::json(f).member("secret"@) == frame::Json::Text(secret),
    ensures
        r is Keep,
        ({
            let waits = old(s).pair.ceremony == Some(false);
            let consent = old(s).plan.remember is Some || waits || old(s).plan.yes;
            &&& text::byte_len(secret) != 64 ==> r->keep is Ignore && r->answer is None
            &&& text::byte_len(secret) == 64 && consent ==> r->keep is Store && r->keep->secret@ == secret
                && r->answer is Some && frame::json(r->answer->0).member("ok"@) == frame::Json::Bool(
                true,
            )
            &&& text::byte_len(secret) == 64 && !consent ==> r->keep is Refuse && r->answer is Some
                && frame::json(r->answer->0).member("ok"@) == frame::Json::Bool(false)
            &&& r->keep is Store && old(s).plan.remember is Some ==> r->keep->name@
                == old(s).plan.remember->0@
        }),
        final(s).assembly == old(s).assembly,
        final(s).fleet == old(s).fleet,
        final(s).candidates == old(s).candidates,
{
    dispatching::types_are_apart();
    keys_are_apart();
}

/// Our own secret is handed over where the wait for the other's was in vain; an answer to it counts
/// from whom it was handed to; and only a trusted peer introduces another.
pub proof fn our_secret_is_handed_over_and_answered(
    s: &mut RecvSession,
    pid: &str,
    f: serde_json::Value,
    hello: &str,
    p: PeerView,
    token: &str,
    nonce: Option<Vec<u8>>,
    fresh: &str,
    now: u64,
    r: Act,
)
    requires
        old(s).wf(),
        call_ensures(RecvSession::hear, (s, pid, &f, hello, &p, token, nonce, fresh, now), r),
        !says(f, hello@),
        p.linked,
    ensures
        says(f, "__pair_fallback"@) && old(s).pair.ceremony == Some(false) ==> r is HandOver
            && frame::json(r->frame).member("secret"@) == frame::Json::Text(
            old(s).pair.ceremony_secret@,
        ) && final(s).pair.ceremony is None && final(s).pair.ceremony_pid is Some && final(s).pair.ceremony_pid->0@ == pid@,
        says(f, "__pair_fallback"@) && old(s).pair.ceremony != Some(false) ==> r is Nothing && *final(s) == *old(s),
        says(f, "pair-keep-ack"@) && !(old(s).pair.ceremony_pid is Some && old(
            s,
        ).pair.ceremony_pid->0@ == pid@) ==> r == Act::Kept(KeepAcked::NotOurs) && final(s).pair
            == old(s).pair,
        says(f, "pair-keep-ack"@) && old(s).pair.ceremony_pid is Some && old(s).pair.ceremony_pid->0@
            == pid@ && frame::json(f).member("ok"@) == frame::Json::Bool(true) ==> (
        r matches Act::Kept(KeepAcked::Store { name, secret }) && secret@ == old(
            s,
        ).pair.ceremony_secret@) && final(s).pair.ceremony_pid is None && final(s).pair.ceremony_secret@ == fresh@,
        says(f, "pair-keep-ack"@) && old(s).pair.ceremony_pid is Some && old(s).pair.ceremony_pid->0@
            == pid@ && frame::json(f).member("ok"@) != frame::Json::Bool(true) ==> r == Act::Kept(
            KeepAcked::Declined,
        ),
        says(f, "pair-intro"@) && !p.trusted ==> (r matches Act::Introduced(Introduction::Ignore {
            line,
        })) && *final(s) == *old(s),
{
    dispatching::types_are_apart();
    keys_are_apart();
}

/// A terminal changes where its stream shows it, and a session that is closed is shown nowhere to
/// that peer.
pub proof fn terminals_are_changed_and_closed(
    s: &mut RecvSession,
    pid: &str,
    f: serde_json::Value,
    hello: &str,
    p: PeerView,
    token: &str,
    nonce: Option<Vec<u8>>,
    fresh: &str,
    now: u64,
    r: Act,
    sid: u32,
    q: Seq<char>,
    n: u32,
)
    requires
        old(s).wf(),
        call_ensures(RecvSession::hear, (s, pid, &f, hello, &p, token, nonce, fresh, now), r),
        !says(f, hello@),
        p.linked,
        old(s).plan.streams,
        frame::json(f).member("sid"@) == frame::Json::Number(Some(sid as u64)),
    ensures
        says(f, "pty-resize"@) ==> {
            &&& r is Resize && r->Resize_sid == sid && *final(s) == *old(s)
            &&& old(s).terminals@.contains_key((pid@, sid)) ==> r->shows is Some && r->shows->0@ == old(
                s,
            ).terminals@[(pid@, sid)]
            &&& !old(s).terminals@.contains_key((pid@, sid)) ==> r->shows is None
            &&& frame::json(f).member("cols"@) is Null ==> r->cols == 80
            &&& frame::json(f).member("rows"@) is Null ==> r->rows == 24
            &&& frame::json(f).member("cols"@) matches frame::Json::Number(Some(c)) ==> r->cols as int
                == c as int % 0x1_0000
            &&& frame::json(f).member("rows"@) matches frame::Json::Number(Some(c)) ==> r->rows as int
                == c as int % 0x1_0000
        },
        says(f, "pty-close"@) && r is End && old(s).terminals@.contains_key((q, n)) ==> {
            &&& q == pid@ && old(s).terminals@[(q, n)] == r->session@ ==> !final(s).terminals@.contains_key((q, n))
            &&& q != pid@ || old(s).terminals@[(q, n)] != r->session@ ==> final(s).terminals@.contains_key((q, n))
        },
        says(f, "pty-close"@) && frame::json(f).member("session"@) !is Text ==> r is Nothing && *final(s) == *old(s),
{
    dispatching::types_are_apart();
}

/// A direct offer waits until the sender is found; a message of the ceremony counts from whoever may
/// take part; and anything else is for the link.
pub proof fn signals_are_heard(s: &mut RecvSession, from: &str, d: serde_json::Value, now: u64, r: SignalStep)
    requires
        old(s).wf(),
        call_ensures(RecvSession::signal, (s, from, &d, now), r),
    ensures
        ({
            let c = old(s).candidates;
            let direct = says(d, "transport-offer"@);
            let word = says(d, "pake-msg"@) || says(d, "pake-confirm"@);
            let runs = c.deadlines@.contains_key(from@);
            let may = !c.settled && (runs || (!c.dropped@.contains_key(from@) && c.deadlines@.dom().len()
                < 8));
            &&& direct && c.settled ==> r is Direct && (r->probe <==> frame::json(d).member("probe"@)
                == frame::Json::Bool(true)) && final(s).candidates.direct@ == c.direct@
            &&& direct && !c.settled ==> r is Held && final(s).candidates.direct@.contains_key(from@)
            &&& word && !old(s).plan.code_path ==> r is Apply && *final(s) == *old(s)
            &&& word && old(s).plan.code_path && may ==> r == (SignalStep::Ceremony { begin: !runs })
                && final(s).candidates.deadlines@.contains_key(from@)
            &&& word && old(s).plan.code_path && !may ==> r is Ignore && final(s).candidates.deadlines@
                == c.deadlines@
            &&& !direct && !word ==> r is Apply && *final(s) == *old(s)
            &&& final(s).assembly == old(s).assembly && final(s).pair == old(s).pair && final(s).fleet
                == old(s).fleet
        }),
{
    signals_are_apart();
}

/// Over a link that came up a device of the fleet that has not proved itself is greeted, the ceremony
/// begins with whoever may take part, and our secret is handed to a stranger only.
pub proof fn a_link_came_up(s: &mut RecvSession, pid: &str, l: LinkView, now: u64, r: LinkUp)
    requires
        old(s).wf(),
        call_ensures(RecvSession::link_up, (s, pid, &l, now), r),
    ensures
        ({
            let proved = old(s).fleet.verified@.contains_key(pid@);
            let awaited = old(s).fleet.pending@.contains_key(pid@);
            let c = old(s).candidates;
            let runs = c.deadlines@.contains_key(pid@);
            &&& r.greet <==> !proved && l.in_fleet && (awaited || l.shaped)
            &&& r.begin <==> !c.settled && !runs && c.deadlines@.dom().len() < 8
            &&& r.pair is Offer ==> old(s).pair.ceremony == Some(true) && l.exists_ && !l.has_secret
                && !proved && !awaited && !r.greet
            &&& old(s).pair.ceremony == Some(true) && l.exists_ && !l.has_secret && !proved && !awaited
                && !r.greet ==> r.pair is Offer && final(s).pair.ceremony_pid is Some && final(s).pair.ceremony_pid->0@ == pid@ && final(s).pair.ceremony is None
            &&& r.pair is Wait <==> old(s).pair.ceremony == Some(false) && l.exists_ && !l.has_secret
                && !proved && !awaited && !r.greet
            &&& r.greet ==> final(s).fleet.pending@.contains_key(pid@)
            &&& final(s).fleet.verified == old(s).fleet.verified
            &&& final(s).assembly == old(s).assembly && final(s).questions == old(s).questions
        }),
{
}

/// A file settles as it was begun, and the first that is placed is called as the plan says.
pub proof fn a_file_of_the_session_settles(s: &mut RecvSession, pid: &str, sid: u32, verdict: VerifyResult, r: (Settled, Option<String>), k: int, out: bool)
    requires
        old(s).wf(),
        arriving::runs_at(old(s).assembly.files@, pid@, sid, k),
        call_ensures(RecvSession::settle, (s, pid, sid, verdict), r),
        call_ensures(RecvPlan::to_stdout, (&old(s).plan,), out),
    ensures
        out <==> old(s).plan.output is Some && old(s).plan.output->0@ == "-"@,
        out ==> r.0 is Streamed,
        r.0 matches Settled::Place { file, ack } ==> file == old(s).assembly.files@[k] && (ack
            <==> file.full is Some),
        !out && (old(s).assembly.files@[k].full is None || verdict is Match) ==> r.0 is Place,
        r.0 is Place && old(s).assembly.completed == 0 && old(s).plan.output is Some ==> r.1 is Some
            && r.1->0@ == old(s).plan.output->0@,
        r.0 is Place && old(s).assembly.completed == 0 && old(s).plan.output is None ==> r.1 is None,
        r.0 !is Place || old(s).assembly.completed > 0 ==> r.1 is None,
        final(s).pair == old(s).pair && final(s).plan == old(s).plan,
{
    let a = old(s).assembly.files@;
    assert(assembly::is_at(a, pid@, sid, k));
    let i = choose|i: int| #[trigger]
        assembly::is_at(a, pid@, sid, i) && assembly::settles(
            old(s).assembly,
            final(s).assembly,
            i,
            old(s).plan.is_to_stdout(),
            verdict,
            r.0,
        );
    assert(i == k) by {
        if i < k {
            assert(a[i].peer@ == a[k].peer@);
        }
        if k < i {
            assert(a[k].peer@ == a[i].peer@);
        }
    }
}

/// What is typed answers the question that waits, where one does, and is a command otherwise.
pub proof fn what_is_typed_is_an_answer_or_a_command(s: &mut RecvSession, line: &str, is_code: bool, devices: Vec<String>, token: &str, now: u64, r: Typed)
    requires
        old(s).wf(),
        call_ensures(RecvSession::typed, (s, line, is_code, &devices, token, now), r),
    ensures
        ({
            let small = text::lowercase(line@);
            let asked = old(s).questions.pending@.len() > 0;
            let settled = now - old(s).questions.shown >= 300_000_000;
            &&& asked ==> r is Answer && final(s).pair == old(s).pair
            &&& !asked ==> r is Command && final(s).questions == old(s).questions
            &&& asked && settled && (small == "y"@ || small == "yes"@) ==> (r matches Typed::Answer {
                answer: Answered::Accept { pid, offer },
                show,
            } && pid@ == old(s).questions.pending@[0].pid@ && frame::json(offer) == frame::json(
                old(s).questions.pending@[0].offer,
            ).with("__consent"@, frame::Json::Text(token@)))
            &&& asked && settled && (small == "n"@ || small == "no"@) ==> (r matches Typed::Answer {
                answer: Answered::Decline { pid, id, line: l },
                show,
            } && pid@ == old(s).questions.pending@[0].pid@)
            &&& asked && (!settled || (small != "y"@ && small != "yes"@ && small != "n"@ && small
                != "no"@)) && now >= old(s).questions.shown ==> (r matches Typed::Answer {
                answer: Answered::Nothing,
                show,
            })
            &&& !asked && small == "devices"@ ==> r == Typed::Command(Command::Devices)
            &&& !asked && (small == "pair"@ || small == "code"@) ==> r == Typed::Command(Command::Mint)
            &&& final(s).assembly == old(s).assembly && final(s).fleet == old(s).fleet
        }),
{
    answers_are_apart();
}

/// A receive is over once something was delivered, nothing arrives and it is not meant to stay.
pub proof fn when_a_receive_is_over(s: &mut RecvSession, r: bool, completed: u64, keep: bool, idle: bool, d: bool)
    requires
        old(s).wf(),
        call_ensures(RecvSession::take_stock, (s,), r),
        call_ensures(recv_transfer_done, (completed, keep, idle), d),
    ensures
        r <==> old(s).assembly.completed > 0 && !old(s).plan.keep_open && old(s).assembly.files@.len()
            == 0,
        d <==> completed > 0 && !keep && idle,
        final(s).received_before <==> old(s).received_before || old(s).assembly.completed > 0 || old(
            s,
        ).assembly.files@.len() > 0,
        final(s).assembly == old(s).assembly,
{
}

/// A receive that is over ends with its links, or once they were silent for the window; an open
/// question keeps it.
pub proof fn when_a_receive_ends(s: &mut RecvSession, linked: bool, deferred: bool, healthy: bool, now: u64, r: ExitStep)
    requires
        old(s).wf(),
        call_ensures(RecvSession::leave, (s, linked, deferred, healthy, now), r),
    ensures
        ({
            let over = old(s).assembly.completed > 0 && !old(s).plan.keep_open && old(
                s,
            ).assembly.files@.len() == 0 && old(s).questions.pending@.len() == 0;
            &&& !over ==> r is Stay && final(s).quiet is None
            &&& over && (!linked || deferred) ==> r is Done
            &&& over && linked && !deferred && healthy ==> r is Stay && final(s).quiet is None
            &&& over && linked && !deferred && !healthy && old(s).quiet is None ==> r is Stay && final(s).quiet == Some(now)
            &&& (over && linked && !deferred && !healthy && (old(s).quiet matches Some(t) && t <= now))
                ==> if now - old(s).quiet->0 > old(s).plan.window {
                r is DoneQuiet
            } else {
                r is Stay && final(s).quiet == old(s).quiet
            }
        }),
        final(s).assembly == old(s).assembly,
{
}

/// The same holds of the rule by itself.
pub proof fn when_to_end(v: ExitView, quiet: &mut Option<u64>, window: u64, now: u64, r: ExitStep)
    requires
        call_ensures(exit_step, (&v, quiet, window, now), r),
    ensures
        ({
            let over = v.completed > 0 && !v.keep_open && v.idle && !v.asking;
            &&& !over ==> r is Stay && *final(quiet) is None
            &&& over && (!v.linked || v.only_deferred) ==> r is Done
            &&& over && v.linked && !v.only_deferred && v.healthy ==> r is Stay && *final(quiet) is None
            &&& over && v.linked && !v.only_deferred && !v.healthy && *old(quiet) is None ==> r is Stay
                && *final(quiet) == Some(now)
            &&& (over && v.linked && !v.only_deferred && !v.healthy && (*old(quiet) matches Some(t) && t
                <= now)) ==> if now - (*old(quiet))->0 > window {
                r is DoneQuiet
            } else {
                r is Stay && *final(quiet) == *old(quiet)
            }
        }),
{
}

/// A sender that left is waited for where a file of its is on its way, or where it was paired with
/// and nothing came; with everything there it is over, and otherwise others are listened for. No
/// file arrives after that.
pub proof fn when_a_sender_left(s: &mut RecvSession, r: LeftStep, dropped: bool, l: Option<String>)
    requires
        old(s).wf(),
        call_ensures(RecvSession::left, (s,), r),
        call_ensures(RecvSession::lost, (&*old(s), dropped), l),
    ensures
        ({
            let files = old(s).assembly.files@.len() > 0;
            let some = old(s).assembly.completed > 0;
            let stays = old(s).plan.keep_open;
            &&& files ==> r is Park
            &&& !files && some && !stays ==> r is Done
            &&& !files && !some && old(s).pair.paired && !stays ==> r is Hold
            &&& !files && (stays || (!some && !old(s).pair.paired)) ==> r is Listen
            &&& l is Some <==> dropped && old(s).pair.paired && !stays && !some
            &&& l is Some ==> l->0@
                == "lost the sender after 5 attempts; the partial is kept, re-run `filament receive <code>` to resume"@
        }),
        final(s).assembly.files@.len() == 0,
        final(s).assembly.completed == old(s).assembly.completed,
        final(s).assembly.verify_fails == old(s).assembly.verify_fails,
{
}

/// The same holds of the rules by themselves.
pub proof fn when_somebody_left(arriving: bool, completed: u64, keep: bool, paired: bool, r: LeftStep, dropped: bool, l: Option<String>)
    requires
        call_ensures(peer_left, (arriving, completed, keep, paired), r),
        call_ensures(lost_sender, (dropped, paired, keep, completed), l),
    ensures
        arriving ==> r is Park,
        !arriving && completed > 0 && !keep ==> r is Done,
        !arriving && completed == 0 && paired && !keep ==> r is Hold,
        !arriving && (keep || (completed == 0 && !paired)) ==> r is Listen,
        l is Some <==> dropped && paired && !keep && completed == 0,
{
}

/// A link that got stuck twice before anything came is hinted at.
pub proof fn stuck_twice_is_hinted_at(s: &mut RecvSession, r: bool, count: &mut u32, before: bool, c: bool)
    requires
        old(s).wf(),
        call_ensures(RecvSession::got_stuck, (s,), r),
        call_ensures(stuck_again, (count, before), c),
    ensures
        old(s).received_before ==> !r && final(s).stuck == old(s).stuck,
        !old(s).received_before && old(s).stuck < u32::MAX ==> final(s).stuck == old(s).stuck + 1 && (r
            <==> old(s).stuck >= 1),
        before ==> !c && *final(count) == *old(count),
        !before && *old(count) < u32::MAX ==> *final(count) == *old(count) + 1 && (c <==> *old(count)
            >= 1),
        final(s).assembly == old(s).assembly,
{
}

/// A session begins with its plan and nothing else.
pub proof fn a_receive_session_begins(plan: RecvPlan, secret: &str, now: u64, r: RecvSession)
    requires
        call_ensures(RecvSession::new, (plan, secret, now), r),
    ensures
        r.plan == plan,
        r.assembly.files@.len() == 0,
        r.assembly.completed == 0,
        r.questions.pending@.len() == 0,
        r.candidates.settled <==> !plan.code_path,
        r.pair.paired == plan.code_path,
        r.pair.ceremony_secret@ == secret@,
        r.pair.ceremony is None,
        r.quiet is None,
        r.stuck == 0,
        !r.received_before,
{
}

/// With a link that broke its streams are closed; its sessions are detached only once it is gone.
pub proof fn what_goes_with_a_link(tunnels: bool, state: &str, r: LinkChange)
    requires
        call_ensures(link_change, (tunnels, state), r),
    ensures
        !tunnels ==> !r.close_streams && !r.detach_sessions,
        tunnels && (state@ == "failed"@ || state@ == "closed"@) ==> r.close_streams && r.detach_sessions,
        tunnels && state@ == "disconnected"@ ==> r.close_streams,
        tunnels && state@ != "failed"@ && state@ != "closed"@ ==> !r.detach_sessions,
        tunnels && state@ != "failed"@ && state@ != "closed"@ && state@ != "disconnected"@ ==> !r.close_streams,
{
}

/// A peer is away for as long as it says, five minutes at most, and for two where it does not say.
pub proof fn how_long_a_peer_is_away(v: serde_json::Value, r: u64)
    requires
        call_ensures(away_secs, (&v,), r),
    ensures
        frame::json(v).member("ttl"@) matches frame::Json::Number(Some(n)) ==> (n <= 300 ==> r == n) && (
        n > 300 ==> r == 300),
        frame::json(v).member("ttl"@) is Null ==> r == 120,
{
}

proof fn standing_is_told(files: Seq<IncomingFile>, peer: Seq<char>, k: int)
    requires
        0 <= k < files.len(),
        files[k].peer@ == peer,
        forall|j: int|
            k < j < files.len() && (#[trigger] files[j]).peer@ == peer ==> files[j].id@ != files[k].id@,
    ensures
        finish::standings(files, peer).contains_key(files[k].id@),
        finish::standings(files, peer)[files[k].id@] == frame::Json::Number(Some(files[k].received)),
    decreases files.len(),
{
    if k < files.len() - 1 {
        let short = files.drop_last();
        assert(short[k] == files[k]);
        assert forall|j: int| k < j < short.len() && (#[trigger] short[j]).peer@ == peer implies short[j].id@
            != short[k].id@ by {
            assert(files[j].peer@ == peer);
        }
        standing_is_told(short, peer, k);
        let last = files.len() - 1;
        if files.last().peer@ == peer {
            assert(files[last].id@ != files[k].id@);
        }
    }
}

proof fn only_own_standings(files: Seq<IncomingFile>, peer: Seq<char>, id: Seq<char>)
    requires
        finish::standings(files, peer).contains_key(id),
    ensures
        exists|k: int|
            0 <= k < files.len() && (#[trigger] files[k]).peer@ == peer && files[k].id@ == id,
    decreases files.len(),
{
    if files.len() > 0 {
        let short = files.drop_last();
        if finish::standings(short, peer).contains_key(id) {
            only_own_standings(short, peer, id);
            let k = choose|k: int|
                0 <= k < short.len() && (#[trigger] short[k]).peer@ == peer && short[k].id@ == id;
            assert(files[k].peer@ == peer);
        } else {
            assert(files[files.len() - 1].peer@ == peer);
        }
    }
}

/// A peer is told how much is there of each of its files, and of nobody else's, and whether it is
/// trusted.
pub proof fn a_peer_is_told_where_its_files_stand(a: Assembly, peer: &str, trusted: bool, v: serde_json::Value, k: int, id: Seq<char>)
    requires
        call_ensures(state_frame, (&a, peer, trusted), v),
    ensures
        frame::json(v).member("type"@) == frame::Json::Text("state"@),
        frame::json(v).member("trusted"@) == frame::Json::Bool(trusted),
        frame::json(v).member("away"@) == frame::Json::Bool(false),
        0 <= k < a.files@.len() && a.files@[k].peer@ == peer@ && (forall|j: int|
            k < j < a.files@.len() && (#[trigger] a.files@[j]).peer@ == peer@ ==> a.files@[j].id@
                != a.files@[k].id@) ==> frame::json(v).member("transfers"@).member(a.files@[k].id@)
            == frame::Json::Number(Some(a.files@[k].received)),
        (forall|j: int|
            0 <= j < a.files@.len() && (#[trigger] a.files@[j]).peer@ == peer@ ==> a.files@[j].id@ != id)
            ==> frame::json(v).member("transfers"@).member(id) is Null,
{
    keys_are_apart();
    let files = a.files@;
    if 0 <= k < files.len() && files[k].peer@ == peer@ && (forall|j: int|
        k < j < files.len() && (#[trigger] files[j]).peer@ == peer@ ==> files[j].id@ != files[k].id@) {
        standing_is_told(files, peer@, k);
    }
    if finish::standings(files, peer@).contains_key(id) {
        only_own_standings(files, peer@, id);
    }
}

/// A code that was rejected ends a run that was started with it and has nothing yet; any other goes
/// on with a hint.
pub proof fn a_rejected_code_ends_what_it_started(v: serde_json::Value, started: bool, linked: bool, completed: u64, r: Rejected)
    requires
        call_ensures(code_rejected, (&v, started, linked, completed), r),
    ensures
        started && !linked && completed == 0 ==> r is Fail,
        !started || linked || completed > 0 ==> r is GoOn,
        frame::json(v).member("why"@) == frame::Json::Text("sender-gone"@) && r is GoOn ==> r->hint@
            == "the sender who made that code already left, ask them for a fresh one"@,
        frame::json(v).member("why"@) == frame::Json::Text("sender-gone"@) && r is Fail ==> r->message@
            == "code rejected: "@
            + "the sender who made that code already left, ask them for a fresh one"@,
        frame::json(v).member("why"@) !is Text && r is GoOn ==> (frame::json(v).member("error"@)
            matches frame::Json::Text(e) ==> r->hint@ == e
            + ", codes burn after one use and expire after 10 min"@),
        frame::json(v).member("why"@) !is Text && r is Fail ==> (frame::json(v).member("error"@)
            matches frame::Json::Text(e) ==> r->message@ == "code rejected: "@ + (e
            + ", codes burn after one use and expire after 10 min"@)),
{
}

/// What is said at the end.
pub proof fn what_is_said_at_the_end(completed: u64, d: String, daemon: bool, i: &'static str)
    requires
        call_ensures(done_line, (completed,), d),
        call_ensures(interrupted_line, (daemon,), i),
    ensures
        completed == 1 ==> d@ == "done ("@ + text::decimal(1) + " file)."@,
        completed != 1 ==> d@ == "done ("@ + text::decimal(completed as nat) + " files)."@,
        daemon ==> i@ == "stopped serving; `filament up` starts again"@,
        !daemon ==> i@ == "interrupted, partials kept; run the same command to resume"@,
{
}

/// What a frame changes is what it is about: the plan, the questions, the waits and the end of the
/// session are not.
pub proof fn a_frame_changes_what_it_is_about(
    s: &mut RecvSession,
    pid: &str,
    f: serde_json::Value,
    hello: &str,
    p: PeerView,
    token: &str,
    nonce: Option<Vec<u8>>,
    fresh: &str,
    now: u64,
    r: Act,
)
    requires
        old(s).wf(),
        call_ensures(RecvSession::hear, (s, pid, &f, hello, &p, token, nonce, fresh, now), r),
    ensures
        final(s).plan == old(s).plan,
        final(s).questions == old(s).questions,
        final(s).holds == old(s).holds,
        final(s).quiet == old(s).quiet,
        final(s).stuck == old(s).stuck,
        final(s).received_before == old(s).received_before,
        final(s).assembly.completed == old(s).assembly.completed,
        final(s).assembly.verify_fails == old(s).assembly.verify_fails,
        final(s).fleet.verified == old(s).fleet.verified,
        final(s).fleet.pending == old(s).fleet.pending,
        final(s).fleet.greeted == old(s).fleet.greeted,
        final(s).fleet.bind_ours == old(s).fleet.bind_ours,
        final(s).candidates.settled == old(s).candidates.settled,
        final(s).candidates.deadlines == old(s).candidates.deadlines,
        final(s).candidates.direct == old(s).candidates.direct,
        final(s).candidates.overall == old(s).candidates.overall,
        final(s).candidates.dropped == old(s).candidates.dropped,
        final(s).pair.paired == old(s).pair.paired,
        final(s).pair.claim_in_flight == old(s).pair.claim_in_flight,
{
    let k = recv_session::kind_of(*old(s), pid@, frame::json(f), hello@, p);
    assert(recv_session::acted(
        *old(s),
        *final(s),
        pid@,
        frame::json(f),
        k,
        p,
        token@,
        nonce,
        fresh@,
        now,
        r,
    ));
}

/// What a frame carries is read as it is read by itself: the ports, the session, the introduction.
pub proof fn what_a_frame_carries_is_read_as_by_itself(
    s: &mut RecvSession,
    pid: &str,
    f: serde_json::Value,
    hello: &str,
    p: PeerView,
    token: &str,
    nonce: Option<Vec<u8>>,
    fresh: &str,
    now: u64,
    r: Act,
    w: Vec<u16>,
    device: Option<&str>,
    n: Option<String>,
    hub: &str,
    i: Introduction,
)
    requires
        old(s).wf(),
        call_ensures(RecvSession::hear, (s, pid, &f, hello, &p, token, nonce, fresh, now), r),
        !says(f, hello@),
        call_ensures(worker_ports, (&f,), w),
        device is Some <==> p.device is Some,
        device is Some ==> device->0@ == p.device->0@,
        call_ensures(session_name, (&f, device, pid), n),
        p.name is Some ==> hub@ == p.name->0@,
        p.name is None ==> hub@.len() == 0,
        call_ensures(introduction, (p.trusted, &f, hub), i),
    ensures
        says(f, "worker-ports"@) ==> r is Workers && r->ports@ == w@,
        says(f, "pty-close"@) && p.linked && old(s).plan.streams && n is Some ==> r is End && r->session@
            == n->0@,
        says(f, "pty-close"@) && p.linked && old(s).plan.streams && n is None ==> r is Nothing,
        says(f, "pair-intro"@) && p.linked ==> r is Introduced && (i is Store <==> r->Introduced_0 is Store),
        says(f, "pair-intro"@) && p.linked && i is Store ==> r->Introduced_0->name@ == i->name@
            && r->Introduced_0->secret@ == i->secret@,
{
    dispatching::types_are_apart();
    if p.name is None {
        assert(hub@ =~= Seq::<char>::empty());
    }
}

/// A message of the ceremony, and a link that came up, begin the time of a peer and of all; a direct
/// offer is kept as it is read by itself.
pub proof fn the_ceremony_begins_with_its_time(
    s: &mut RecvSession,
    from: &str,
    d: serde_json::Value,
    now: u64,
    r: SignalStep,
    u: &mut RecvSession,
    l: LinkView,
    x: LinkUp,
    other: Seq<char>,
)
    requires
        old(s).wf(),
        call_ensures(RecvSession::signal, (s, from, &d, now), r),
        old(u).wf(),
        call_ensures(RecvSession::link_up, (u, from, &l, now), x),
        other != from@,
    ensures
        r == (SignalStep::Ceremony { begin: true }) && now + old(s).plan.budget <= u64::MAX ==> final(s).candidates.deadlines@[from@] == now + old(s).plan.budget,
        r is Ceremony && old(s).candidates.overall is None && now + old(s).plan.budget <= u64::MAX
            ==> final(s).candidates.overall == Some((now + old(s).plan.budget) as u64),
        r is Ceremony && old(s).candidates.overall is Some ==> final(s).candidates.overall == old(
            s,
        ).candidates.overall,
        x.begin && now + old(u).plan.budget <= u64::MAX ==> final(u).candidates.deadlines@.contains_key(
            from@,
        ) && final(u).candidates.deadlines@[from@] == now + old(u).plan.budget,
        x.begin ==> !final(u).candidates.dropped@.contains_key(from@),
        !x.begin ==> final(u).candidates.deadlines@ == old(u).candidates.deadlines@,
        final(s).candidates.deadlines@.contains_key(other) == old(s).candidates.deadlines@.contains_key(
            other,
        ),
        final(u).candidates.deadlines@.contains_key(other) == old(u).candidates.deadlines@.contains_key(
            other,
        ),
        final(s).candidates.offers == old(s).candidates.offers,
        final(u).candidates.offers == old(u).candidates.offers,
        final(s).candidates.settled == old(s).candidates.settled,
        final(u).candidates.settled == old(u).candidates.settled,
        final(u).plan == old(u).plan && final(u).assembly == old(u).assembly,
{
    signals_are_apart();
}

/// A direct offer is kept, or taken up, as what its members say.
pub proof fn a_direct_offer_is_kept_as_it_is(s: &mut RecvSession, from: &str, d: serde_json::Value, now: u64, r: SignalStep, o: DirectOffer)
    requires
        old(s).wf(),
        call_ensures(RecvSession::signal, (s, from, &d, now), r),
        call_ensures(parse_direct, (&d,), o),
        says(d, "transport-offer"@),
    ensures
        r is Direct ==> r->offer.proto == o.proto && r->offer.addrs@.len() == o.addrs@.len() && (
        r->offer.srflx is Some <==> o.srflx is Some) && (r->offer.server_public is Some
            <==> o.server_public is Some),
        r is Held ==> final(s).candidates.direct@[from@].proto == o.proto && final(s).candidates.direct@[from@].addrs@.len() == o.addrs@.len(),
{
    signals_are_apart();
    assert(frame::views(o.addrs@).len() == o.addrs@.len());
    if r is Direct {
        assert(frame::views(r->offer.addrs@).len() == r->offer.addrs@.len());
    }
    if r is Held {
        let h = final(s).candidates.direct@[from@];
        assert(frame::views(h.addrs@).len() == h.addrs@.len());
    }
}

/// An answer that is typed takes its question.
pub proof fn a_typed_answer_takes_its_question(s: &mut RecvSession, line: &str, is_code: bool, devices: Vec<String>, token: &str, now: u64, r: Typed)
    requires
        old(s).wf(),
        call_ensures(RecvSession::typed, (s, line, is_code, &devices, token, now), r),
        old(s).questions.pending@.len() > 0,
    ensures
        r is Answer,
        r->answer is Nothing ==> final(s).questions.pending@ == old(s).questions.pending@,
        r->answer !is Nothing ==> final(s).questions.pending@.len() == old(s).questions.pending@.len()
            - 1,
        r->answer matches Answered::Decline { pid, id, line: l } ==> (frame::json(
            old(s).questions.pending@[0].offer,
        ).member("id"@) matches frame::Json::Text(t) ==> id@ == t),
        final(s).plan == old(s).plan && final(s).candidates == old(s).candidates,
{
    answers_are_apart();
}

} // verus!
