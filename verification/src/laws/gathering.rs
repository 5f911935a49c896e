//! The ceremony over a typed code: who takes part, for how long, and who turns out to be the sender.

use vstd::prelude::*;
use vstd::string::*;
use crate::candidates;
use crate::candidates::{
    asks_probe, parse_direct, timed_out_message, Admission, Candidates, DirectOffer, Inbound, Progress,
};
use crate::frame;
use crate::keyed;

verus! {

/// Without a code there is nobody to find; with one, nobody was found yet.
pub proof fn a_code_starts_the_search(code: bool, r: Candidates)
    requires
        call_ensures(Candidates::new, (code,), r),
    ensures
        r.settled <==> !code,
        forall|p: Seq<char>| !r.deadlines@.contains_key(p),
        forall|p: Seq<char>| !r.offers@.contains_key(p),
        forall|p: Seq<char>| !r.direct@.contains_key(p),
        forall|p: Seq<char>| !r.dropped@.contains_key(p),
        r.overall is None,
{
}

/// A peer takes part while the sender is not found, while there are fewer than eight, and, where its
/// time ran out before, only over a link that came up. Its own time and that of all begin with it.
pub proof fn who_takes_part(c: &mut Candidates, pid: &str, now: u64, budget: u64, up: bool, r: Admission)
    requires
        old(c).wf(),
        call_ensures(Candidates::enter, (c, pid, now, budget, up), r),
    ensures
        old(c).settled ==> r is Settled,
        !old(c).settled && old(c).deadlines@.contains_key(pid@) ==> r is Known,
        !old(c).settled && old(c).dropped@.contains_key(pid@) && !up ==> r is Dropped,
        !old(c).settled && !old(c).deadlines@.contains_key(pid@) && (up || !old(
            c,
        ).dropped@.contains_key(pid@)) ==> (if old(c).deadlines@.dom().len() >= 8 {
            r is Full
        } else {
            r is New
        }),
        r is New && now + budget <= u64::MAX ==> final(c).deadlines@.contains_key(pid@) && final(c).deadlines@[pid@] == now + budget && !final(c).dropped@.contains_key(pid@),
        r !is New ==> final(c).deadlines@ == old(c).deadlines@ && final(c).dropped@ == old(c).dropped@,
        (r is New || r is Known) && old(c).overall is None && now + budget <= u64::MAX ==> final(c).overall == Some((now + budget) as u64),
        old(c).overall is Some ==> final(c).overall == old(c).overall,
        final(c).settled == old(c).settled,
        final(c).offers == old(c).offers,
        final(c).direct == old(c).direct,
{
}

/// Who takes part does not touch who else does.
pub proof fn one_peer_does_not_push_out_another(
    c: &mut Candidates,
    pid: &str,
    now: u64,
    budget: u64,
    up: bool,
    r: Admission,
    other: Seq<char>,
)
    requires
        old(c).wf(),
        call_ensures(Candidates::enter, (c, pid, now, budget, up), r),
        other != pid@,
    ensures
        final(c).deadlines@.contains_key(other) == old(c).deadlines@.contains_key(other),
        old(c).deadlines@.contains_key(other) ==> final(c).deadlines@[other] == old(
            c,
        ).deadlines@[other],
        final(c).dropped@.contains_key(other) == old(c).dropped@.contains_key(other),
{
}

/// The offer of a peer that takes part is kept, and is had back with the word that it is the sender,
/// with its direct offer; from then on the sender is found, and what others offered is gone.
pub proof fn the_senders_own_offers_are_had_back(
    c: &mut Candidates,
    d: &mut Candidates,
    e: &mut Candidates,
    pid: &str,
    v: serde_json::Value,
    o: DirectOffer,
    b: bool,
    h: Option<DirectOffer>,
    r: Progress,
)
    requires
        !old(c).settled,
        old(c).deadlines@.contains_key(pid@),
        call_ensures(Candidates::buffer_offer, (c, pid, v), b),
        *old(d) == *final(c),
        call_ensures(Candidates::buffer_direct, (d, pid, o), h),
        *old(e) == *final(d),
        call_ensures(Candidates::advance, (e, pid, Inbound::Finished), r),
    ensures
        b,
        h is None,
        r matches Progress::Sender { direct, offer } && direct == Some(o) && offer == Some(v),
        final(e).settled,
        forall|p: Seq<char>| !final(e).offers@.contains_key(p),
        forall|p: Seq<char>| !final(e).direct@.contains_key(p),
{
}

/// A peer that offered nothing brings nothing with it.
pub proof fn nothing_offered_nothing_had(e: &mut Candidates, pid: &str, r: Progress)
    requires
        call_ensures(Candidates::advance, (e, pid, Inbound::Finished), r),
    ensures
        !old(e).offers@.contains_key(pid@) ==> (r matches Progress::Sender { direct, offer } && offer
            is None),
        !old(e).direct@.contains_key(pid@) ==> (r matches Progress::Sender { direct, offer } && direct
            is None),
        final(e).dropped == old(e).dropped,
        final(e).overall == old(e).overall,
{
}

/// A peer that failed is out, with all that it offered; the others go on, and the sender is not
/// found yet.
pub proof fn a_failed_peer_is_out(e: &mut Candidates, pid: &str, r: Progress, other: Seq<char>)
    requires
        call_ensures(Candidates::advance, (e, pid, Inbound::Failed), r),
    ensures
        r is Dropped,
        !final(e).settled,
        !final(e).deadlines@.contains_key(pid@),
        !final(e).offers@.contains_key(pid@),
        !final(e).direct@.contains_key(pid@),
        other != pid@ ==> final(e).deadlines@.contains_key(other) == old(e).deadlines@.contains_key(
            other,
        ) && final(e).offers@.contains_key(other) == old(e).offers@.contains_key(other) && final(e).direct@.contains_key(other) == old(e).direct@.contains_key(other),
        final(e).overall == old(e).overall,
        final(e).dropped == old(e).dropped,
{
}

/// While a ceremony runs nothing changes.
pub proof fn a_running_ceremony_changes_nothing(e: &mut Candidates, pid: &str, r: Progress)
    requires
        call_ensures(Candidates::advance, (e, pid, Inbound::Running), r),
    ensures
        r is Wait,
        *final(e) == *old(e),
{
}

/// An offer is kept for a peer that takes part, and for nobody else.
pub proof fn offers_are_kept_for_who_takes_part(c: &mut Candidates, pid: &str, v: serde_json::Value, b: bool, other: Seq<char>)
    requires
        call_ensures(Candidates::buffer_offer, (c, pid, v), b),
    ensures
        b <==> !old(c).settled && old(c).deadlines@.contains_key(pid@),
        b ==> final(c).offers@.contains_key(pid@) && final(c).offers@[pid@] == v,
        !b ==> final(c).offers@ == old(c).offers@,
        other != pid@ ==> final(c).offers@.contains_key(other) == old(c).offers@.contains_key(other),
        other != pid@ && old(c).offers@.contains_key(other) ==> final(c).offers@[other] == old(
            c,
        ).offers@[other],
        final(c).deadlines == old(c).deadlines,
        final(c).settled == old(c).settled,
        final(c).direct == old(c).direct,
        final(c).overall == old(c).overall,
        final(c).dropped == old(c).dropped,
{
}

/// A direct offer is taken up at once where the sender is found, and kept until then.
pub proof fn direct_offers_wait_for_the_sender(c: &mut Candidates, pid: &str, o: DirectOffer, r: Option<DirectOffer>)
    requires
        call_ensures(Candidates::buffer_direct, (c, pid, o), r),
    ensures
        old(c).settled ==> r == Some(o) && final(c).direct@ == old(c).direct@,
        !old(c).settled ==> r is None && final(c).direct@.contains_key(pid@) && final(c).direct@[pid@]
            == o,
        final(c).offers == old(c).offers,
        final(c).deadlines == old(c).deadlines,
        final(c).settled == old(c).settled,
        final(c).dropped == old(c).dropped,
{
}

/// Whose time has run out is out and remembered as such, with its offer; whose has not, stays.
pub proof fn time_runs_out(c: &mut Candidates, now: u64, gone: Vec<String>, p: Seq<char>)
    requires
        old(c).wf(),
        call_ensures(Candidates::expire, (c, now), gone),
        old(c).deadlines@.contains_key(p),
    ensures
        old(c).deadlines@[p] < now ==> !final(c).deadlines@.contains_key(p) && final(c).dropped@.contains_key(p) && !final(c).offers@.contains_key(p),
        old(c).deadlines@[p] >= now ==> final(c).deadlines@.contains_key(p) && final(c).deadlines@[p]
            == old(c).deadlines@[p] && (final(c).offers@.contains_key(p) == old(
            c,
        ).offers@.contains_key(p)),
        (exists|i: int| 0 <= i < gone@.len() && (#[trigger] gone@[i])@ == p) <==> old(
            c,
        ).deadlines@[p] < now,
        final(c).settled == old(c).settled,
        final(c).overall == old(c).overall,
        final(c).direct == old(c).direct,
{
    assert(keyed::listed(gone@, p) <==> old(c).deadlines@[p] < now);
    assert(old(c).deadlines@[p] < now ==> candidates::expired(old(c).deadlines@, now).contains(p));
    assert(old(c).deadlines@[p] < now ==> final(c).dropped@.dom().contains(p));
}

/// The search is given up where the time of all has run out and the sender was not found.
pub proof fn the_search_ends(c: Candidates, now: u64, r: bool, m: String)
    requires
        call_ensures(Candidates::timed_out, (&c, now), r),
        call_ensures(timed_out_message, (), m),
    ensures
        c.settled ==> !r,
        c.overall is None ==> !r,
        !c.settled && c.overall is Some ==> (r <==> c.overall->0 < now),
        m@
            == "the other device uses an older version and can't send securely over a code. Update it (or this CLI) so the transfer runs the encrypted handshake. Nothing was received."@,
{
}

proof fn texts_of_texts(a: Seq<frame::Json>)
    requires
        forall|i: int| 0 <= i < a.len() ==> (#[trigger] a[i]) is Text,
    ensures
        frame::texts(a).len() == a.len(),
        forall|i: int| 0 <= i < a.len() ==> frame::texts(a)[i] == (#[trigger] a[i])->Text_0,
    decreases a.len(),
{
    if a.len() > 0 {
        let b = a.drop_last();
        assert forall|i: int| 0 <= i < b.len() implies (#[trigger] b[i]) is Text by {
            assert(a[i] is Text);
        }
        texts_of_texts(b);
        assert(a[a.len() - 1] is Text);
        assert forall|i: int| 0 <= i < a.len() implies frame::texts(a)[i] == (#[trigger] a[i])->Text_0 by {
            if i < b.len() {
                assert(b[i] == a[i]);
            }
        }
    }
}

/// A direct offer is what its members say: its addresses in order, its outer address, the server's
/// key, and a protocol between one and two hundred and fifty-five.
pub proof fn a_direct_offer_is_what_its_members_say(v: serde_json::Value, o: DirectOffer, a: Seq<frame::Json>, i: int)
    requires
        call_ensures(parse_direct, (&v,), o),
    ensures
        frame::json(v).member("addrs"@) == frame::Json::Array(a) && (forall|k: int|
            0 <= k < a.len() ==> (#[trigger] a[k]) is Text) ==> o.addrs@.len() == a.len() && (0 <= i
            < a.len() ==> o.addrs@[i]@ == a[i]->Text_0),
        frame::json(v).member("addrs"@) !is Array ==> o.addrs@.len() == 0,
        frame::json(v).member("srflx"@) matches frame::Json::Text(s) ==> o.srflx is Some && o.srflx->0@
            == s,
        frame::json(v).member("srflx"@) !is Text ==> o.srflx is None,
        frame::json(v).member("server_public"@) matches frame::Json::Text(s) ==> o.server_public
            is Some && o.server_public->0@ == s,
        frame::json(v).member("server_public"@) !is Text ==> o.server_public is None,
        frame::json(v).member("proto"@) is Null ==> o.proto == 1,
        frame::json(v).member("proto"@) matches frame::Json::Number(Some(n)) ==> (1 <= n <= 255
            ==> o.proto == n) && (n == 0 ==> o.proto == 1) && (n > 255 ==> o.proto == 255),
{
    assert(frame::views(o.addrs@).len() == o.addrs@.len());
    if frame::json(v).member("addrs"@) == frame::Json::Array(a) && (forall|k: int|
        0 <= k < a.len() ==> (#[trigger] a[k]) is Text) {
        texts_of_texts(a);
        if 0 <= i < a.len() {
            assert(frame::views(o.addrs@)[i] == o.addrs@[i]@);
            assert(a[i] is Text);
        }
    }
}

/// A probe is answered where one is asked for in so many words.
pub proof fn a_probe_is_asked_for(v: serde_json::Value, r: bool)
    requires
        call_ensures(asks_probe, (&v,), r),
    ensures
        r <==> frame::json(v).member("probe"@) == frame::Json::Bool(true),
{
}

/// What `Candidates::enter` does not concern, of the candidates, stays as it is.
pub proof fn what_enter_leaves_alone(
    q: &mut Candidates,
    pid: &str,
    now: u64,
    budget: u64,
    up: bool,
    r: Admission,
)
    requires
        call_ensures(Candidates::enter, (q, pid, now, budget, up), r),
    ensures
        final(q).settled == old(q).settled,
        final(q).offers == old(q).offers,
        final(q).direct == old(q).direct,
{
}

/// What `Candidates::buffer_offer` does not concern, of the candidates, stays as it is.
pub proof fn what_buffer_offer_leaves_alone(
    q: &mut Candidates,
    pid: &str,
    v: serde_json::Value,
    r: bool,
)
    requires
        call_ensures(Candidates::buffer_offer, (q, pid, v), r),
    ensures
        final(q).settled == old(q).settled,
        final(q).deadlines == old(q).deadlines,
        final(q).direct == old(q).direct,
        final(q).overall == old(q).overall,
        final(q).dropped == old(q).dropped,
{
}

/// What `Candidates::buffer_direct` does not concern, of the candidates, stays as it is.
pub proof fn what_buffer_direct_leaves_alone(
    q: &mut Candidates,
    pid: &str,
    o: DirectOffer,
    r: Option<DirectOffer>,
)
    requires
        call_ensures(Candidates::buffer_direct, (q, pid, o), r),
    ensures
        final(q).settled == old(q).settled,
        final(q).deadlines == old(q).deadlines,
        final(q).offers == old(q).offers,
        final(q).overall == old(q).overall,
        final(q).dropped == old(q).dropped,
{
}

/// What `Candidates::advance` does not concern, of the candidates, stays as it is.
pub proof fn what_advance_leaves_alone(
    q: &mut Candidates,
    pid: &str,
    inbound: Inbound,
    r: Progress,
)
    requires
        call_ensures(Candidates::advance, (q, pid, inbound), r),
    ensures
        final(q).overall == old(q).overall,
{
}

/// What `Candidates::expire` does not concern, of the candidates, stays as it is.
pub proof fn what_expire_leaves_alone(
    q: &mut Candidates,
    now: u64,
    r: Vec<String>,
)
    requires
        call_ensures(Candidates::expire, (q, now), r),
    ensures
        final(q).settled == old(q).settled,
        final(q).direct == old(q).direct,
        final(q).overall == old(q).overall,
{
}

} // verus!
