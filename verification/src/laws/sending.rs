//! A sender's session: whom it waits for, what each frame makes of it, and when it is over.

use vstd::prelude::*;
use vstd::string::*;
use crate::ack_window::AckFallback;
use crate::candidates::Inbound;
use crate::frame;
use crate::keyed;
use crate::laws::dispatching;
use crate::laws::offering;
use crate::outgoing;
use crate::outgoing::{Outbox, Outgoing, SendOutcome};
use crate::send_loop;
use crate::send_loop::{
    code_failed, code_minutes, device_appeared, establish_check, full_code, is_ceremony, is_stalled,
    is_stranger, lost_receiver, next_wait, offers_remembering, proves_again, stalled_error, vacate,
    Appeared, AuthStep, CodeFailed, SendAuth, Wait,
};
use crate::send_session;
use crate::send_session::{After, Asked, Before, PeerView, SendSession, SignalStep};
use crate::text;
use crate::ack_window::{unconfirmed_error, unconfirmed_line};
use crate::overlay_links::{parse_challenge, worker_ports, Challenge};
use crate::renewal_lifecycle::{parse_enroll_challenge, EnrollAsked};

verus! {

broadcast use frame::with_sets_one_member;

proof fn signals_are_apart()
    ensures
        "pake-msg"@.len() == 8,
        "pake-confirm"@.len() == 12,
        "transport-offer"@.len() == 15,
{
    reveal_strlit("pake-msg");
    reveal_strlit("pake-confirm");
    reveal_strlit("transport-offer");
}
proof fn answers_are_apart()
    ensures
        "brb"@.len() == 3,
        "back"@.len() == 4,
        "state"@.len() == 5,
        "l3-nonce"@.len() == 8,
        "pair-keep"@.len() == 9,
        "file-accept"@.len() == 11,
        "delivery-ack"@.len() == 12,
        "delivery-ack"@[0] == 'd',
        "file-decline"@.len() == 12,
        "file-decline"@[0] == 'f',
        "worker-ports"@.len() == 12,
        "worker-ports"@[0] == 'w',
        "pair-keep-ack"@.len() == 13,
        "pair-proof-ack"@.len() == 14,
        "identity-nonce-challenge"@.len() == 24,
        "identity-auth-key-enroll-challenge"@.len() == 34,
{
    reveal_strlit("brb");
    reveal_strlit("back");
    reveal_strlit("state");
    reveal_strlit("l3-nonce");
    reveal_strlit("pair-keep");
    reveal_strlit("file-accept");
    reveal_strlit("delivery-ack");
    reveal_strlit("file-decline");
    reveal_strlit("worker-ports");
    reveal_strlit("pair-keep-ack");
    reveal_strlit("pair-proof-ack");
    reveal_strlit("identity-nonce-challenge");
    reveal_strlit("identity-auth-key-enroll-challenge");
}

/// A frame says that it is of this type.
pub open spec fn says(f: serde_json::Value, t: Seq<char>) -> bool {
    dispatching::says(f, t)
}

/// A send begins with its files, waits for nobody in particular, and asks for the code where there is
/// one.
pub proof fn a_send_session_begins(outbox: Outbox, code: bool, now: u64, limit: u64, wait: u64, r: SendSession, a: SendAuth)
    requires
        call_ensures(SendSession::new, (outbox, code, now, limit, wait), r),
        call_ensures(SendAuth::new, (code,), a),
    ensures
        r.outbox == outbox,
        r.active is None,
        !r.established,
        r.auth.use_code == code,
        r.auth.done == !code,
        r.started == now,
        r.establish_limit == limit,
        r.ack_wait == wait,
        r.stuck == 0,
        a.use_code == code,
        a.done == !code,
        a.peer is None,
        a.deadline is None,
{
}

/// The files go to the first peer that fits, and stay with it; one that proved to be the device meant
/// takes them over, and one that did not loses them.
pub proof fn whom_the_files_stay_with(
    s: &mut SendSession,
    t: &mut SendSession,
    g: &mut SendSession,
    pid: &str,
    fits: bool,
    r: bool,
    q: &str,
    is_it: bool,
)
    requires
        call_ensures(SendSession::take_up, (s, pid, fits), r),
        call_ensures(SendSession::settle_on, (t, pid), ()),
        call_ensures(SendSession::give_up_on, (g, pid), ()),
        call_ensures(SendSession::sends_to, (&*final(s), q), is_it),
    ensures
        r <==> fits && old(s).active is None,
        r ==> final(s).active is Some && final(s).active->0@ == pid@,
        !r ==> final(s).active == old(s).active,
        final(t).active is Some && final(t).active->0@ == pid@,
        final(g).active is Some ==> final(g).active->0@ != pid@,
        old(g).active is Some && old(g).active->0@ != pid@ ==> final(g).active is Some && final(g).active->0@ == old(g).active->0@,
        !final(g).established,
        is_it <==> final(s).active is Some && final(s).active->0@ == q@,
        final(s).outbox == old(s).outbox && final(t).outbox == old(t).outbox && final(g).outbox == old(
            g,
        ).outbox,
{
}

/// A link that got stuck twice before one was live is hinted at.
pub proof fn stuck_twice_before_a_live_link(s: &mut SendSession, r: bool)
    requires
        call_ensures(SendSession::got_stuck, (s,), r),
    ensures
        old(s).established ==> !r && final(s).stuck == old(s).stuck,
        !old(s).established && old(s).stuck < u32::MAX ==> final(s).stuck == old(s).stuck + 1 && (r
            <==> old(s).stuck >= 1),
        final(s).outbox == old(s).outbox && final(s).active == old(s).active,
{
}

/// A peer that left is expected back for two minutes where a file is not done.
pub proof fn a_peer_that_left_is_expected_back(s: SendSession, r: Option<String>, k: int)
    requires
        call_ensures(SendSession::left, (&s,), r),
    ensures
        0 <= k < s.outbox.files@.len() && !s.outbox.files@[k].done ==> r is Some,
        s.outbox.files@.len() == 0 ==> r is None,
        (forall|j: int| 0 <= j < s.outbox.files@.len() ==> (#[trigger] s.outbox.files@[j]).done) ==> r
            is None,
        r is Some ==> r->0@ == "disconnected, waiting up to "@ + text::decimal(120) + "s"@,
{
    if 0 <= k < s.outbox.files@.len() && !s.outbox.files@[k].done {
        assert(!s.outbox.is_all_done());
    }
}

/// A direct offer is taken up, the ceremony is run where there is a code, and anything else is for
/// the link.
pub proof fn a_sender_hears_signals(s: SendSession, d: serde_json::Value, r: SignalStep, c: bool)
    requires
        call_ensures(SendSession::signal, (&s, &d), r),
        call_ensures(is_ceremony, (&d,), c),
    ensures
        says(d, "transport-offer"@) ==> r is Direct && (r->probe <==> frame::json(d).member("probe"@)
            == frame::Json::Bool(true)),
        s.auth.use_code && (says(d, "pake-msg"@) || says(d, "pake-confirm"@)) ==> r is Ceremony,
        !s.auth.use_code && (says(d, "pake-msg"@) || says(d, "pake-confirm"@)) ==> r is Apply,
        !says(d, "transport-offer"@) && !says(d, "pake-msg"@) && !says(d, "pake-confirm"@) ==> r is Apply,
        c <==> says(d, "pake-msg"@) || says(d, "pake-confirm"@),
{
    signals_are_apart();
}

/// A send fails where no link came up within its limit, if it has one, or where nobody came within
/// ten minutes; meanwhile nobody is waited for longer than two seconds at a time.
pub proof fn how_long_a_send_waits(s: SendSession, awaited: bool, now: u64, r: Before)
    requires
        call_ensures(SendSession::before, (&s, awaited, now), r),
        s.started <= now,
    ensures
        ({
            let waited = now - s.started;
            let late = !s.established && s.establish_limit != 0 && waited >= s.establish_limit;
            let nobody = s.active is None && !awaited && waited >= 600_000_000_000;
            &&& late || nobody ==> r is Fail
            &&& !late && !nobody && (s.active is Some || awaited) ==> r == (Before::Wait { nanos: None })
            &&& !late && !nobody && s.active is None && !awaited && waited <= 598_000_000_000 ==> r == (
            Before::Wait { nanos: Some(2_000_000_000) })
            &&& !late && !nobody && s.active is None && !awaited && waited > 598_000_000_000 ==> r == (
            Before::Wait { nanos: Some((600_000_000_000 - waited) as u64) })
            &&& late ==> r->message@ == "no peer connected within "@ + text::decimal(
                (s.establish_limit / 1_000_000_000) as nat,
            )
                + "s, is a receiver running / the page open? (set FILAMENT_SEND_TIMEOUT to change or 0 to disable)"@
            &&& !late && nobody ==> r->message@
                == "timed out waiting for a peer, is the other device online and on the same server? (--code makes pairing explicit)"@
        }),
{
}

/// The same holds of the rules by themselves.
pub proof fn how_long_to_wait(up: bool, limit: u64, started: u64, now: u64, e: Option<String>, expected: bool, w: Wait)
    requires
        call_ensures(establish_check, (up, limit, started, now), e),
        call_ensures(next_wait, (expected, started, now), w),
        started <= now,
    ensures
        e is Some <==> !up && limit != 0 && now - started >= limit,
        expected ==> w is Links,
        !expected && now - started >= 600_000_000_000 ==> w is Fail,
        !expected && now - started <= 598_000_000_000 ==> w == (Wait::Slice { nanos: 2_000_000_000 }),
        !expected && 598_000_000_000 < now - started < 600_000_000_000 ==> w == (Wait::Slice {
            nanos: (600_000_000_000 - (now - started)) as u64,
        }),
{
}

/// The state is told every ten seconds.
pub proof fn the_state_is_told_every_ten_seconds(s: &mut SendSession, now: u64, r: bool)
    requires
        call_ensures(SendSession::tells_state, (s, now), r),
        old(s).told <= now,
    ensures
        r <==> now - old(s).told >= 10_000_000_000,
        r ==> final(s).told == now,
        !r ==> final(s).told == old(s).told,
        final(s).outbox == old(s).outbox,
{
}

/// Only what the peer that files go to says of them is heard; what anybody else says changes nothing.
pub proof fn only_the_receiver_is_heard(
    s: &mut SendSession,
    pid: &str,
    f: serde_json::Value,
    hello: &str,
    p: PeerView,
    now: u64,
    r: Asked,
)
    requires
        call_ensures(SendSession::hear, (s, pid, &f, hello, &p, now), r),
        !(old(s).active is Some && old(s).active->0@ == pid@),
    ensures
        *final(s) == *old(s),
        r is Nothing || r is Handshake || r is Workers || r is Identity || r is Enroll,
{
}

/// An acceptance asks for the bytes of the file it names from the byte it names on, over a link that
/// is ready; that file has been accepted from then on.
pub proof fn an_acceptance_asks_for_bytes(
    s: &mut SendSession,
    pid: &str,
    f: serde_json::Value,
    hello: &str,
    p: PeerView,
    now: u64,
    r: Asked,
    id: Seq<char>,
    offset: u64,
    k: int,
    j: int,
)
    requires
        call_ensures(SendSession::hear, (s, pid, &f, hello, &p, now), r),
        old(s).active is Some && old(s).active->0@ == pid@,
        says(f, "file-accept"@),
        !says(f, hello@),
        frame::json(f).member("id"@) == frame::Json::Text(id),
        frame::json(f).member("offset"@) == frame::Json::Number(Some(offset)),
        offering::first_called(old(s).outbox.files@, id, k),
        0 <= j < old(s).outbox.files@.len(),
    ensures
        p.ready ==> r is Stream && r->id@ == id && r->offset == offset,
        p.ready ==> final(s).outbox.files@[k] == (Outgoing {
            accepted_once: true,
            ..old(s).outbox.files@[k]
        }),
        p.ready && j != k ==> final(s).outbox.files@[j] == old(s).outbox.files@[j],
        !p.ready ==> r is Nothing && *final(s) == *old(s),
{
    answers_are_apart();
    first_is_first(old(s).outbox.files@, id, k);
}

/// A refusal and a delivery are of the file they name: it is declined, or confirmed, and done; both
/// are told by its name, a delivery once.
pub proof fn refusals_and_deliveries_are_of_their_file(
    s: &mut SendSession,
    pid: &str,
    f: serde_json::Value,
    hello: &str,
    p: PeerView,
    now: u64,
    r: Asked,
    id: Seq<char>,
    k: int,
    j: int,
)
    requires
        call_ensures(SendSession::hear, (s, pid, &f, hello, &p, now), r),
        old(s).active is Some && old(s).active->0@ == pid@,
        !says(f, hello@),
        frame::json(f).member("id"@) == frame::Json::Text(id),
        offering::first_called(old(s).outbox.files@, id, k),
        0 <= j < old(s).outbox.files@.len(),
        j != k,
    ensures
        says(f, "file-decline"@) ==> {
            &&& r is Declined && r->line is Some && r->line->0@ == "declined: "@ + old(
                s,
            ).outbox.files@[k].name@
            &&& final(s).outbox.files@[k] == (Outgoing {
                declined: true,
                done: true,
                ..old(s).outbox.files@[k]
            })
            &&& final(s).outbox.files@[j] == old(s).outbox.files@[j]
        },
        says(f, "delivery-ack"@) ==> {
            &&& r is Delivered && (r->news is Some <==> !old(s).outbox.files@[k].acked)
            &&& r->news is Some ==> r->news->0.line@ == "    "@ + old(s).outbox.files@[k].name@
                + " delivered + verified (whole-file sha256 matched)"@
            &&& !old(s).outbox.files@[k].acked ==> final(s).outbox.files@[k] == (Outgoing {
                acked: true,
                done: true,
                ..old(s).outbox.files@[k]
            })
            &&& final(s).outbox.files@[j] == old(s).outbox.files@[j]
        },
        says(f, "file-decline"@) || says(f, "delivery-ack"@) ==> final(s).active == old(s).active
            && final(s).auth == old(s).auth && final(s).window == old(s).window,
{
    answers_are_apart();
    first_is_first(old(s).outbox.files@, id, k);
}

proof fn first_is_first(files: Seq<Outgoing>, id: Seq<char>, k: int)
    requires
        offering::first_called(files, id, k),
    ensures
        outgoing::is_first(files, id, k),
        outgoing::known(files, id),
{
    assert(outgoing::is_first(files, id, k));
}

/// A file that we took for done and of which the receiver's state shows less is open again; a
/// receiver that does not trust us is given our proof, once.
pub proof fn the_receivers_state_is_heard(
    s: &mut SendSession,
    pid: &str,
    f: serde_json::Value,
    hello: &str,
    p: PeerView,
    now: u64,
    r: Asked,
    k: int,
)
    requires
        call_ensures(SendSession::hear, (s, pid, &f, hello, &p, now), r),
        old(s).active is Some && old(s).active->0@ == pid@,
        !says(f, hello@),
        says(f, "state"@),
        0 <= k < old(s).outbox.files@.len(),
    ensures
        r is State,
        old(s).outbox.files@[k].done && offering::holds_less(frame::json(f), old(s).outbox.files@[k])
            ==> !final(s).outbox.files@[k].done && !final(s).outbox.files@[k].acked && final(s).outbox.files@[k].id == old(s).outbox.files@[k].id && final(s).outbox.files@[k].declined
            == old(s).outbox.files@[k].declined,
        !(old(s).outbox.files@[k].done && offering::holds_less(
            frame::json(f),
            old(s).outbox.files@[k],
        )) ==> final(s).outbox.files@[k] == old(s).outbox.files@[k],
        r->prove <==> frame::json(f).member("trusted"@) == frame::Json::Bool(false) && !keyed::listed(
            old(s).reproved@,
            pid@,
        ) && p.can_prove && p.ready,
        r->prove ==> keyed::listed(final(s).reproved@, pid@),
        final(s).outbox.files@.len() == old(s).outbox.files@.len(),
{
    answers_are_apart();
    assert(keyed::listed(final(s).reproved@, pid@) == (keyed::listed(old(s).reproved@, pid@) || (
    r->prove && pid@ == pid@)));
}

/// Everything else that the receiver says is heard as what it is, and changes nothing.
pub proof fn what_else_the_receiver_says(
    s: &mut SendSession,
    pid: &str,
    f: serde_json::Value,
    hello: &str,
    p: PeerView,
    now: u64,
    r: Asked,
)
    requires
        call_ensures(SendSession::hear, (s, pid, &f, hello, &p, now), r),
        old(s).active is Some && old(s).active->0@ == pid@,
        !says(f, hello@),
    ensures
        says(f, "back"@) ==> r is Back && *final(s) == *old(s),
        says(f, "pair-keep-ack"@) ==> r is KeepAck && *final(s) == *old(s),
        says(f, "pair-keep"@) ==> r is Keep && *final(s) == *old(s),
        says(f, "pair-proof-ack"@) ==> r is Verdict && (r->stranger <==> frame::json(f).member("ok"@)
            == frame::Json::Bool(false)) && *final(s) == *old(s),
        says(f, "brb"@) ==> r is Away && *final(s) == *old(s) && (frame::json(f).member("ttl"@)
            matches frame::Json::Number(Some(n)) ==> (n <= 300 ==> r->secs == n) && (n > 300 ==> r->secs
            == 300)),
        says(f, "worker-ports"@) ==> r is Workers && *final(s) == *old(s),
        says(f, "identity-nonce-challenge"@) ==> r is Identity && *final(s) == *old(s),
        says(f, "identity-auth-key-enroll-challenge"@) ==> r is Enroll && *final(s) == *old(s),
        says(f, "l3-nonce"@) && p.unproved ==> r is Handshake && *final(s) == *old(s),
        frame::json(f).member("type"@) !is Text ==> r is Nothing && *final(s) == *old(s),
{
    answers_are_apart();
}

/// A send is finished once every file is done, and succeeds where none was turned down; while its
/// files are all sent and not all done it waits for the receiver's word.
pub proof fn when_a_send_is_over(s: &mut SendSession, now: u64, alive: bool, r: After, k: int)
    requires
        old(s).wf(),
        call_ensures(SendSession::after, (s, now, alive), r),
    ensures
        ({
            let files = old(s).outbox.files@;
            let done = files.len() > 0 && forall|j: int| 0 <= j < files.len() ==> (#[trigger] files[j]).done;
            let sent = files.len() > 0 && forall|j: int|
                0 <= j < files.len() ==> (#[trigger] files[j]).sent || files[j].declined;
            &&& done <==> r is Finished
            &&& 0 <= k < files.len() && !files[k].done ==> r !is Finished
            &&& r is Unconfirmed ==> sent && !done
            &&& !sent || done ==> final(s).window == old(s).window
            &&& sent && !done && old(s).window.sent_all_at is None ==> final(s).window.sent_all_at
                == Some(now)
            &&& r is GoOn ==> (r->flush <==> sent && !done && old(s).window.sent_all_at is None)
            &&& r matches After::Finished { outcome: SendOutcome::Complete { completed } } ==> completed
                == files.len() && (0 <= k < files.len() ==> files[k].acked)
            &&& final(s).outbox == old(s).outbox && final(s).active == old(s).active
        }),
{
    let files = old(s).outbox.files@;
    if 0 <= k < files.len() && !files[k].done {
        assert(!old(s).outbox.is_all_done());
    }
}

/// The word of the receiver is waited for as long as was set; then it is asked again over a live
/// link, with the end of each open file, and five seconds later, or without a link, the files are not
/// confirmed.
pub proof fn how_long_the_receivers_word_is_waited_for(s: &mut SendSession, now: u64, alive: bool, r: After, k: int)
    requires
        old(s).wf(),
        call_ensures(SendSession::after, (s, now, alive), r),
        old(s).outbox.files@.len() > 0,
        forall|j: int|
            0 <= j < old(s).outbox.files@.len() ==> (#[trigger] old(s).outbox.files@[j]).sent || old(
                s,
            ).outbox.files@[j].declined,
        0 <= k < old(s).outbox.files@.len(),
        !old(s).outbox.files@[k].done,
        old(s).window.sent_all_at is Some,
        old(s).window.sent_all_at->0 <= now,
        old(s).window.reprobed_at is Some ==> old(s).window.reprobed_at->0 <= now,
    ensures
        ({
            let first = now - old(s).window.sent_all_at->0;
            let again = old(s).window.reprobed_at;
            let open = offering::how_many(
                old(s).outbox.files@,
                old(s).outbox.files@.len() as int,
                |f: Outgoing| !f.done,
            );
            &&& again is None && first < old(s).ack_wait ==> r is GoOn && r->ends@.len() == 0
            &&& again is None && first >= old(s).ack_wait && alive ==> r is GoOn && r->ends@.len() == open
                && final(s).window.reprobed_at == Some(now)
            &&& again is None && first >= old(s).ack_wait && !alive ==> r is Unconfirmed
            &&& again is Some && now - again->0 < 5_000_000_000 ==> r is GoOn && r->ends@.len() == 0
            &&& again is Some && now - again->0 >= 5_000_000_000 ==> r is Unconfirmed
            &&& r is Unconfirmed ==> r->lines@.len() == open
        }),
{
    let files = old(s).outbox.files@;
    let like = |f: Outgoing| !f.done;
    assert(!old(s).outbox.is_all_done());
    offering::ends_of_by_place(files, k, like);
    offering::open_names_by_place(files, k, like);
    if r is GoOn {
        assert(outgoing::jsons(r->ends@).len() == r->ends@.len());
    }
}

/// The first peer whose link is up is the one that the ceremony runs with, and its time begins with
/// it.
pub proof fn the_ceremony_runs_with_the_first(a: &mut SendAuth, pid: &str, now: u64, budget: u64)
    requires
        call_ensures(SendAuth::await_proof, (a, pid, now, budget), ()),
    ensures
        old(a).peer is None ==> final(a).peer is Some && final(a).peer->0@ == pid@,
        old(a).peer is Some ==> final(a).peer is Some && final(a).peer->0@ == old(a).peer->0@,
        old(a).deadline is None && now + budget <= u64::MAX ==> final(a).deadline == Some(
            (now + budget) as u64,
        ),
        old(a).deadline is Some ==> final(a).deadline == old(a).deadline,
        final(a).done == old(a).done,
{
}

/// The receiver has proved that it knows the code once the ceremony finished, and not before; where
/// it failed nothing is sent; without a code there is none.
pub proof fn the_code_is_proved_by_the_ceremony(a: &mut SendAuth, from: &str, inbound: Inbound, why: &str, r: AuthStep)
    requires
        call_ensures(SendAuth::heard, (a, from, inbound, why), r),
    ensures
        !old(a).use_code ==> r is NotOurs && *final(a) == *old(a),
        old(a).use_code && inbound is Failed ==> r is Refused && r->message@ == "transfer REFUSED: "@
            + why@ + ". Nothing was sent; ask for a FRESH code."@ && final(a).done == old(a).done,
        old(a).use_code && inbound is Finished && !old(a).done ==> r is Authenticated && final(a).done,
        old(a).use_code && inbound is Finished && old(a).done ==> r is GoOn && final(a).done,
        old(a).use_code && inbound is Running ==> r is GoOn && final(a).done == old(a).done,
        final(a).use_code == old(a).use_code && final(a).deadline == old(a).deadline,
{
}

/// A receiver that did not prove it in time cannot receive over a code.
pub proof fn the_code_is_proved_in_time(a: SendAuth, now: u64, r: Option<String>)
    requires
        call_ensures(SendAuth::overdue, (&a, now), r),
    ensures
        a.done || a.deadline is None ==> r is None,
        !a.done && a.deadline is Some ==> (r is Some <==> a.deadline->0 < now),
        r is Some ==> r->0@
            == "the other device uses an older version and can't receive securely over a code. Update it (or this CLI) so the transfer runs the encrypted handshake. Nothing was sent."@,
{
}

/// The slot is taken from the peer that has it, and from nobody else.
pub proof fn the_slot_is_taken_from_who_has_it(active: &mut Option<String>, pid: &str)
    requires
        call_ensures(vacate, (active, pid), ()),
    ensures
        *old(active) is None ==> *final(active) is None,
        *old(active) is Some && (*old(active))->0@ == pid@ ==> *final(active) is None,
        *old(active) is Some && (*old(active))->0@ != pid@ ==> *final(active) is Some && (*final(active))->0@ == (*old(active))->0@,
{
}

/// A peer is offered once that we remember each other, where we were asked to and no offer is open.
pub proof fn remembering_is_offered_once(asked: bool, open: bool, offered: &mut Vec<String>, again: &mut Vec<String>, pid: &str, r: bool, s: bool)
    requires
        call_ensures(offers_remembering, (asked, open, offered, pid), r),
        *old(again) == *final(offered),
        call_ensures(offers_remembering, (asked, open, again, pid), s),
    ensures
        r <==> asked && !open && !keyed::listed(old(offered)@, pid@),
        !s || !r,
        r ==> keyed::listed(final(offered)@, pid@),
{
    assert(keyed::gained(old(offered)@, final(offered)@, r, pid@));
    assert(keyed::listed(final(offered)@, pid@) == (keyed::listed(old(offered)@, pid@) || (r && pid@
        == pid@)));
}

/// A code that is taken is made anew, with new words where they are ours to make; any other error
/// ends it.
pub proof fn a_taken_code_is_made_anew(v: serde_json::Value, code: bool, chosen: bool, r: CodeFailed)
    requires
        call_ensures(code_failed, (&v, code, chosen), r),
    ensures
        code && frame::json(v).member("error"@) == frame::Json::Text("taken"@) ==> r == (
        CodeFailed::Again { words: !chosen }),
        !code || frame::json(v).member("error"@) != frame::Json::Text("taken"@) ==> r is Fail,
        r is Fail ==> (frame::json(v).member("error"@) matches frame::Json::Text(e) ==> r->message@
            == "pairing failed: "@ + e),
        r is Fail && frame::json(v).member("error"@) !is Text ==> r->message@ == "pairing failed: "@
            + "?"@,
{
}

/// A code is its words and its number, and is kept for as many minutes as the server says, or ten.
pub proof fn a_code_is_words_and_number(words: &str, number: &str, c: String, v: serde_json::Value, m: u64)
    requires
        call_ensures(full_code, (words, number), c),
        call_ensures(code_minutes, (&v,), m),
    ensures
        c@ == words@ + "-"@ + number@,
        frame::json(v).member("ttl"@) matches frame::Json::Number(Some(n)) ==> m == n / 60,
        frame::json(v).member("ttl"@) is Null ==> m == 10,
{
}

/// A device is connected to where it is the one that files go to, is not ours and has no live link;
/// it is announced the first time.
pub proof fn the_target_is_connected_to(ours: bool, target: bool, alive: bool, seen: &mut bool, r: Appeared)
    requires
        call_ensures(device_appeared, (ours, target, alive, seen), r),
    ensures
        ours || !target ==> r is Ignore && *final(seen) == *old(seen),
        !ours && target && alive ==> r is Linked && *final(seen),
        !ours && target && !alive ==> r == (Appeared::Connect { announce: !*old(seen) }) && *final(seen),
{
}

/// Our proof is given again to a peer that does not trust us, once and where there is one.
pub proof fn a_proof_is_given_again_once(v: serde_json::Value, proved: &mut Vec<String>, again: &mut Vec<String>, pid: &str, can: bool, r: bool, s: bool, x: bool)
    requires
        call_ensures(proves_again, (&v, proved, pid, can), r),
        *old(again) == *final(proved),
        call_ensures(proves_again, (&v, again, pid, can), s),
        call_ensures(is_stranger, (&v,), x),
    ensures
        r <==> frame::json(v).member("trusted"@) == frame::Json::Bool(false) && can && !keyed::listed(
            old(proved)@,
            pid@,
        ),
        !r || !s,
        x <==> frame::json(v).member("ok"@) == frame::Json::Bool(false),
{
    assert(keyed::gained(old(proved)@, final(proved)@, r, pid@));
    assert(keyed::listed(final(proved)@, pid@) == (keyed::listed(old(proved)@, pid@) || (r && pid@
        == pid@)));
}

/// A link is repaired where it broke or where it answers; and it is said why a send ends that cannot
/// be.
pub proof fn which_links_are_repaired(broken: bool, answers: bool, r: bool, forbidden: bool, e: String, dropped: bool, l: Option<String>)
    requires
        call_ensures(is_stalled, (broken, answers), r),
        call_ensures(stalled_error, (forbidden,), e),
        call_ensures(lost_receiver, (dropped,), l),
    ensures
        r <==> broken || answers,
        forbidden ==> e@
            == "couldn't establish a direct path and relay is disabled (--no-relay), partial kept; re-run to resume, or drop --no-relay"@,
        !forbidden ==> e@
            == "transfer stalled and no usable path remains, partial kept; re-run to resume"@,
        l is Some <==> dropped,
        l is Some ==> l->0@
            == "lost the receiving peer after 5 attempts; the partial is kept, re-run the same `filament send` to resume"@,
{
}

/// What a frame changes of a send is its files, and whom our proof was given again.
pub proof fn a_frame_changes_only_the_files(
    s: &mut SendSession,
    pid: &str,
    f: serde_json::Value,
    hello: &str,
    p: PeerView,
    now: u64,
    r: Asked,
    k: int,
)
    requires
        call_ensures(SendSession::hear, (s, pid, &f, hello, &p, now), r),
    ensures
        *final(s) == (SendSession {
            outbox: final(s).outbox,
            reproved: final(s).reproved,
            ..*old(s)
        }),
        !says(f, "state"@) || says(f, hello@) && p.unproved ==> final(s).reproved == old(s).reproved,
{
}

/// What a frame carries is read as it is read by itself: the ports and the challenges.
pub proof fn what_a_frame_carries_is_read_by_itself(
    s: &mut SendSession,
    pid: &str,
    f: serde_json::Value,
    hello: &str,
    p: PeerView,
    now: u64,
    r: Asked,
    w: Vec<u16>,
    c: Option<Challenge>,
    e: Option<EnrollAsked>,
)
    requires
        call_ensures(SendSession::hear, (s, pid, &f, hello, &p, now), r),
        !says(f, hello@),
        call_ensures(worker_ports, (&f,), w),
        call_ensures(parse_challenge, (&f,), c),
        call_ensures(parse_enroll_challenge, (&f,), e),
    ensures
        says(f, "worker-ports"@) ==> r is Workers && r->ports@ == w@ && (frame::json(f).member("for"@)
            matches frame::Json::Text(t) ==> r->peer@ == t),
        says(f, "identity-nonce-challenge"@) ==> (r matches Asked::Identity { challenge: x } && (x is Some
            <==> c is Some) && (c is Some ==> x->0.nonce@ == c->0.nonce@ && x->0.receiver@
            == c->0.receiver@)),
        says(f, "identity-auth-key-enroll-challenge"@) ==> (r matches Asked::Enroll { challenge: x } && (x
            is Some <==> e is Some) && (e is Some ==> x->0.nonce@ == e->0.nonce@ && x->0.verifier@
            == e->0.verifier@ && frame::json(x->0.cert) == frame::json(e->0.cert))),
{
    answers_are_apart();
}

/// Word about a file that is not ours is answered, and changes nothing.
pub proof fn word_about_no_file_of_ours(
    s: &mut SendSession,
    pid: &str,
    f: serde_json::Value,
    hello: &str,
    p: PeerView,
    now: u64,
    r: Asked,
    id: Seq<char>,
)
    requires
        call_ensures(SendSession::hear, (s, pid, &f, hello, &p, now), r),
        old(s).active is Some && old(s).active->0@ == pid@,
        !says(f, hello@),
        frame::json(f).member("id"@) == frame::Json::Text(id),
        forall|j: int|
            0 <= j < old(s).outbox.files@.len() ==> (#[trigger] old(s).outbox.files@[j]).id@ != id,
    ensures
        says(f, "file-accept"@) && p.ready ==> r is Stream && r->id@ == id,
        says(f, "file-decline"@) ==> r is Declined && r->line is None,
        says(f, "delivery-ack"@) ==> r is Delivered && r->news is None,
        says(f, "file-accept"@) || says(f, "file-decline"@) || says(f, "delivery-ack"@) ==> final(s).outbox.files@ == old(s).outbox.files@,
        says(f, "brb"@) && frame::json(f).member("ttl"@) is Null ==> r == (Asked::Away { secs: 120 }),
{
    answers_are_apart();
    assert(!outgoing::known(old(s).outbox.files@, id));
}

/// What the receiver's state shows to be missing is offered again, file by file and as what it is.
pub proof fn what_is_missing_is_offered_again(
    s: &mut SendSession,
    pid: &str,
    f: serde_json::Value,
    hello: &str,
    p: PeerView,
    now: u64,
    r: Asked,
    k: int,
)
    requires
        call_ensures(SendSession::hear, (s, pid, &f, hello, &p, now), r),
        old(s).active is Some && old(s).active->0@ == pid@,
        !says(f, hello@),
        says(f, "state"@),
        0 <= k < old(s).outbox.files@.len(),
    ensures
        r is State,
        ({
            let like = |o: Outgoing| o.done && offering::holds_less(frame::json(f), o);
            let at = offering::how_many(old(s).outbox.files@, k, like) as int;
            &&& r->offers@.len() == offering::how_many(
                old(s).outbox.files@,
                old(s).outbox.files@.len() as int,
                like,
            )
            &&& old(s).outbox.files@[k].done && offering::holds_less(
                frame::json(f),
                old(s).outbox.files@[k],
            ) ==> at < r->offers@.len() && offering::offers_file(
                frame::json(r->offers@[at]),
                old(s).outbox.files@[k],
                true,
            )
        }),
{
    answers_are_apart();
    let j = frame::json(f);
    let like = |o: Outgoing| o.done && offering::holds_less(j, o);
    assert(like =~= |o: Outgoing| o.done && offering::holds_less(frame::json(f), o));
    assert forall|o: Outgoing| #[trigger] like(o) == outgoing::diverges(o, j) by {}
    offering::reoffers_of_by_place(old(s).outbox.files@, j, k, like);
    offering::keys_are_apart();
    let v = r->offers@;
    assert(outgoing::jsons(v).len() == v.len());
    let at = offering::how_many(old(s).outbox.files@, k, like) as int;
    if at < v.len() {
        assert(outgoing::jsons(v)[at] == frame::json(v[at]));
    }
}

/// Of a delivery it is told how it went, where its bytes were seen to go out.
pub proof fn how_a_delivery_went(
    s: &mut SendSession,
    pid: &str,
    f: serde_json::Value,
    hello: &str,
    p: PeerView,
    now: u64,
    r: Asked,
    id: Seq<char>,
    k: int,
)
    requires
        call_ensures(SendSession::hear, (s, pid, &f, hello, &p, now), r),
        old(s).active is Some && old(s).active->0@ == pid@,
        !says(f, hello@),
        says(f, "delivery-ack"@),
        frame::json(f).member("id"@) == frame::Json::Text(id),
        offering::first_called(old(s).outbox.files@, id, k),
        !old(s).outbox.files@[k].acked,
    ensures
        r is Delivered && r->news is Some,
        old(s).outbox.files@[k].stream_started is None ==> r->news->0.summary is None,
        old(s).outbox.files@[k].stream_started is Some ==> r->news->0.summary is Some
            && r->news->0.summary->0.name@ == old(s).outbox.files@[k].name@
            && r->news->0.summary->0.bytes == old(s).outbox.files@[k].stream_bytes && (old(
            s,
        ).outbox.files@[k].stream_started->0 <= now ==> r->news->0.summary->0.nanos == now - old(
            s,
        ).outbox.files@[k].stream_started->0),
{
    answers_are_apart();
    first_is_first(old(s).outbox.files@, id, k);
}

/// A send of which files were turned down ends with how many arrived and how many were.
pub proof fn a_send_ends_with_its_tally(s: &mut SendSession, now: u64, alive: bool, r: After, t: (usize, usize))
    requires
        old(s).wf(),
        call_ensures(SendSession::after, (s, now, alive), r),
        call_ensures(Outbox::tally, (&old(s).outbox,), t),
        r is Finished,
    ensures
        t.1 == 0 ==> r->outcome == (SendOutcome::Complete { completed: t.0 }),
        t.1 > 0 ==> r->outcome == (SendOutcome::Declined { completed: t.0, declined: t.1 }),
{
}

/// What is not confirmed at the end is said file by file, and how many they are.
pub proof fn what_is_not_confirmed_is_said(s: &mut SendSession, now: u64, alive: bool, r: After, k: int, line: String, name: &str, n: usize, e: String)
    requires
        old(s).wf(),
        call_ensures(SendSession::after, (s, now, alive), r),
        r is Unconfirmed,
        0 <= k < old(s).outbox.files@.len(),
        !old(s).outbox.files@[k].done,
        name@ == old(s).outbox.files@[k].name@,
        call_ensures(unconfirmed_line, (name,), line),
        n == offering::how_many(
            old(s).outbox.files@,
            old(s).outbox.files@.len() as int,
            |f: Outgoing| !f.done,
        ),
        call_ensures(unconfirmed_error, (n,), e),
    ensures
        r->lines@.len() == n,
        ({
            let at = offering::how_many(old(s).outbox.files@, k, |f: Outgoing| !f.done) as int;
            at < r->lines@.len() && r->lines@[at]@ == line@
        }),
        r->message@ == e@,
{
    let like = |f: Outgoing| !f.done;
    offering::open_names_by_place(old(s).outbox.files@, k, like);
    let at = offering::how_many(old(s).outbox.files@, k, like) as int;
    assert(r->lines@[at]@ == crate::ack_window::unconfirmed_text(
        Outbox::open_names(old(s).outbox.files@)[at],
    ));
}

/// The ends that are sent again are those of the open files, each for its own stream.
pub proof fn the_ends_are_those_of_the_open_files(s: &mut SendSession, now: u64, alive: bool, r: After, k: int)
    requires
        old(s).wf(),
        call_ensures(SendSession::after, (s, now, alive), r),
        r is GoOn,
        r->ends@.len() > 0,
        0 <= k < old(s).outbox.files@.len(),
        !old(s).outbox.files@[k].done,
    ensures
        ({
            let at = offering::how_many(old(s).outbox.files@, k, |f: Outgoing| !f.done) as int;
            let v = frame::json(r->ends@[at]);
            &&& at < r->ends@.len()
            &&& v.member("type"@) == frame::Json::Text("file-end"@)
            &&& v.member("id"@) == frame::Json::Text(old(s).outbox.files@[k].id@)
            &&& v.member("sid"@) == frame::Json::Number(Some(old(s).outbox.files@[k].sid as u64))
        }),
        final(s).window.reprobed_at == Some(now),
{
    let like = |f: Outgoing| !f.done;
    offering::ends_of_by_place(old(s).outbox.files@, k, like);
    offering::keys_are_apart();
    let v = r->ends@;
    assert(outgoing::jsons(v).len() == v.len());
    let at = offering::how_many(old(s).outbox.files@, k, like) as int;
    if at < v.len() {
        assert(outgoing::jsons(v)[at] == frame::json(v[at]));
    }
}

/// Looking at a send changes nothing but the wait, and choosing whom it goes to nothing but that.
pub proof fn looking_changes_only_the_wait(
    a: &mut SendSession,
    t: &mut SendSession,
    u: &mut SendSession,
    g: &mut SendSession,
    k: &mut SendSession,
    d: &mut SendSession,
    pid: &str,
    fits: bool,
    now: u64,
    alive: bool,
    r: (After, bool, bool, bool),
)
    requires
        call_ensures(SendSession::after, (a, now, alive), r.0),
        call_ensures(SendSession::take_up, (t, pid, fits), r.1),
        call_ensures(SendSession::settle_on, (u, pid), ()),
        call_ensures(SendSession::give_up_on, (g, pid), ()),
        call_ensures(SendSession::got_stuck, (k,), r.2),
        call_ensures(SendSession::tells_state, (d, now), r.3),
    ensures
        *final(a) == (SendSession { window: final(a).window, ..*old(a) }),
        *final(t) == (SendSession { active: final(t).active, ..*old(t) }),
        *final(u) == (SendSession { active: final(u).active, ..*old(u) }),
        *final(g) == (SendSession { active: final(g).active, established: false, ..*old(g) }),
        *final(k) == (SendSession { stuck: final(k).stuck, ..*old(k) }),
        *final(d) == (SendSession { told: final(d).told, ..*old(d) }),
{
}

/// Whoever a message of the ceremony came from first is whom it runs with.
pub proof fn the_ceremony_stays_with_its_peer(a: &mut SendAuth, from: &str, inbound: Inbound, why: &str, r: AuthStep)
    requires
        call_ensures(SendAuth::heard, (a, from, inbound, why), r),
        old(a).use_code,
    ensures
        old(a).peer is None ==> final(a).peer is Some && final(a).peer->0@ == from@,
        old(a).peer is Some ==> final(a).peer is Some && final(a).peer->0@ == old(a).peer->0@,
{
}

/// What `SendAuth::await_proof` does not concern, of the ceremony, stays as it is.
pub proof fn what_await_proof_leaves_alone(
    q: &mut SendAuth,
    pid: &str,
    now: u64,
    budget: u64,
)
    requires
        call_ensures(SendAuth::await_proof, (q, pid, now, budget), ()),
    ensures
        final(q).done == old(q).done,
{
}

/// What `SendAuth::heard` does not concern, of the ceremony, stays as it is.
pub proof fn what_heard_leaves_alone(
    q: &mut SendAuth,
    from: &str,
    inbound: Inbound,
    why: &str,
    r: AuthStep,
)
    requires
        call_ensures(SendAuth::heard, (q, from, inbound, why), r),
    ensures
        final(q).use_code == old(q).use_code,
        final(q).deadline == old(q).deadline,
{
}

} // verus!
