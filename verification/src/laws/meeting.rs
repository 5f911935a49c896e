//! Who is there: devices that appear on a channel, links whose peers are missed, and the channels
//! that are listened to.

use vstd::prelude::*;
use vstd::string::*;
use crate::channels;
use crate::channels::{arm_gate, scan, subscription, ArmStep};
use crate::frame;
use crate::keyed;
use crate::keyed::Keyed;
use crate::presence;
use crate::presence::{
    appeared_line, brokered_answer, caps_frame, code_challenge, direct_up, is_news, rendezvous_frame,
    route, waits_for_proof, DirectUp, Identity, Route, Watched,
};
use crate::reconcile;
use crate::reconcile::{is_unknown, reconcile, room_sourced, roster_ids, LinkSeen};
use crate::text;

verus! {

broadcast use frame::with_sets_one_member;

proof fn keys_are_apart()
    ensures
        "ok"@.len() == 2,
        "type"@.len() == 4,
        "shell"@.len() == 5,
        "secret"@.len() == 6,
{
    reveal_strlit("ok");
    reveal_strlit("type");
    reveal_strlit("shell");
    reveal_strlit("secret");
}

/// A list holds this text.
pub open spec fn holds(v: Seq<String>, t: Seq<char>) -> bool {
    exists|i: int| 0 <= i < v.len() && (#[trigger] v[i])@ == t
}

/// A device is known by the channel that it appears on: that of a device of ours first, then one
/// that was arranged, then the fleet's, then the one to enroll on; our own appearance is none of
/// them.
pub proof fn a_device_is_known_by_its_channel(
    v: serde_json::Value,
    own: bool,
    w: Watched,
    my_id: &str,
    verified: bool,
    r: Route,
    c: Seq<char>,
    pid: Seq<char>,
)
    requires
        call_ensures(route, (&v, own, &w, my_id, verified), r),
        frame::json(v).member("channel"@) == frame::Json::Text(c),
        frame::json(v).member("id"@) == frame::Json::Text(pid),
    ensures
        own ==> r is Own,
        !own && holds(w.devices@, c) ==> (r matches Route::Device(i) && i < w.devices@.len()
            && w.devices@[i as int]@ == c),
        !own && !holds(w.devices@, c) && holds(w.brokered@, c) && pid.len() > 0 ==> (
        r matches Route::Brokered(i) && i < w.brokered@.len() && w.brokered@[i as int]@ == c),
        !own && !holds(w.devices@, c) && holds(w.brokered@, c) && pid.len() == 0 ==> r is Stranger,
        !own && !holds(w.devices@, c) && !holds(w.brokered@, c) && w.fleet is Some && w.fleet->0@ == c
            ==> (r matches Route::Fleet { mark, dial } && (mark <==> pid.len() > 0 && !verified)),
        !own && !holds(w.devices@, c) && !holds(w.brokered@, c) && !(w.fleet is Some && w.fleet->0@
            == c) && w.enroll is Some && w.enroll->0@ == c ==> r is Enroll,
        !own && !holds(w.devices@, c) && !holds(w.brokered@, c) && !(w.fleet is Some && w.fleet->0@
            == c) && !(w.enroll is Some && w.enroll->0@ == c) ==> r is Stranger,
{
    assert(holds(w.devices@, c) == keyed::listed(w.devices@, c));
    assert(holds(w.brokered@, c) == keyed::listed(w.brokered@, c));
}

/// Of two devices of the fleet that see each other just one dials.
pub proof fn one_of_two_devices_dials(
    v: serde_json::Value,
    u: serde_json::Value,
    w: Watched,
    x: Watched,
    a: &str,
    b: &str,
    p: bool,
    q: bool,
    r: Route,
    s: Route,
)
    requires
        call_ensures(route, (&v, false, &w, a, p), r),
        call_ensures(route, (&u, false, &x, b, q), s),
        frame::json(v).member("id"@) == frame::Json::Text(b@),
        frame::json(u).member("id"@) == frame::Json::Text(a@),
        a@ != b@,
        r is Fleet,
        s is Fleet,
    ensures
        r->dial != s->dial,
{
    text::precedes_is_strict_and_total(a@, b@);
}

/// A device that appears is news where there is no link to it and none is being made, or where the
/// link is dead.
pub proof fn what_is_news(linked: bool, dialling: bool, dead: bool, r: bool, name: &str, l: String)
    requires
        call_ensures(is_news, (linked, dialling, dead), r),
        call_ensures(appeared_line, (name,), l),
    ensures
        dead ==> r,
        !linked && !dialling ==> r,
        !dead && (linked || dialling) ==> !r,
        l@ == "known device '"@ + name@ + "' appeared, connecting"@,
{
}

/// Over a direct link a peer is challenged where capabilities decide and it is known but not
/// proved, or else where a code was typed and it is not known; its offers are held only in the
/// first case.
pub proof fn whom_a_direct_link_challenges(authoritative: bool, code: bool, id: Identity, r: DirectUp)
    requires
        call_ensures(direct_up, (authoritative, code, &id), r),
    ensures
        authoritative ==> (r.challenge <==> id.known && !id.proven) && r.hold == r.challenge,
        !authoritative ==> (r.challenge <==> code && !id.known) && !r.hold,
{
}

/// After a ceremony a peer that is neither known nor proved is challenged; and an offer waits for a
/// proof that was asked for and did not come, where capabilities decide.
pub proof fn whom_a_ceremony_challenges(code: bool, done: bool, id: Identity, r: bool, authoritative: bool, asked: bool, proven: bool, w: bool)
    requires
        call_ensures(code_challenge, (code, done, &id), r),
        call_ensures(waits_for_proof, (authoritative, asked, proven), w),
    ensures
        id.known || id.proven || !code || !done ==> !r,
        code && done && !id.known && !id.proven ==> r,
        w <==> authoritative && asked && !proven,
{
}

/// What is said over a link of what we serve, and of where to meet.
pub proof fn what_a_link_is_told(shell: bool, c: serde_json::Value, secret: &str, v: serde_json::Value)
    requires
        call_ensures(caps_frame, (shell,), c),
        call_ensures(rendezvous_frame, (secret,), v),
    ensures
        frame::json(c).member("type"@) == frame::Json::Text("caps"@),
        frame::json(c).member("shell"@) == frame::Json::Bool(shell),
        frame::json(v).member("type"@) == frame::Json::Text("fleet-rendezvous"@),
        frame::json(v).member("secret"@) == frame::Json::Text(secret@),
{
    keys_are_apart();
}

/// A meeting is arranged where the word reached the peer over a verified link, and its secret is the
/// one that the peer was told.
pub proof fn a_meeting_is_arranged_once_told(name: &str, sent: Option<bool>, secret: &str, r: Result<serde_json::Value, String>)
    requires
        call_ensures(brokered_answer, (name, sent, secret), r),
    ensures
        sent == Some(true) ==> r is Ok && frame::json(r->Ok_0).member("ok"@) == frame::Json::Bool(true)
            && frame::json(r->Ok_0).member("secret"@) == frame::Json::Text(secret@),
        sent == Some(false) ==> r is Err && r->Err_0@ == "could not reach that peer over the warm link"@,
        sent is None ==> r is Err && r->Err_0@ == "no verified link to '"@ + name@ + "'"@,
{
    keys_are_apart();
}

/// A link whose peer is missing from the room is gone the second time in a row, not the first, and
/// its peer is no longer counted as missed then.
pub proof fn a_peer_is_missed_twice(
    missed: &mut Keyed<u64>,
    again: &mut Keyed<u64>,
    links: Vec<LinkSeen>,
    present: Vec<String>,
    first: Vec<String>,
    second: Vec<String>,
    i: int,
)
    requires
        reconcile::distinct_links(links@),
        0 <= i < links@.len(),
        links@[i].expected,
        !holds(present@, links@[i].pid@),
        !old(missed)@.contains_key(links@[i].pid@),
        call_ensures(reconcile, (missed, &links, &present), first),
        *old(again) == *final(missed),
        call_ensures(reconcile, (again, &links, &present), second),
    ensures
        !holds(first@, links@[i].pid@),
        final(missed)@.contains_key(links@[i].pid@),
        holds(second@, links@[i].pid@),
        !final(again)@.contains_key(links@[i].pid@),
{
    let p = links@[i].pid@;
    assert(!keyed::listed(present@, p)) by {
        assert(holds(present@, p) == keyed::listed(present@, p));
    }
    assert(reconcile::is_absent(links@, present@, p));
    assert(reconcile::is_linked(links@, p));
    assert(keyed::listed(first@, p) == reconcile::is_gone(false, true));
    assert(final(missed)@.contains_key(p) == reconcile::misses(false, true, true));
    assert(keyed::listed(second@, p) == reconcile::is_gone(true, true));
    assert(final(again)@.contains_key(p) == reconcile::misses(true, true, true));
    assert(holds(first@, p) == keyed::listed(first@, p));
    assert(holds(second@, p) == keyed::listed(second@, p));
}

/// A peer that is in the room, or is not expected there, is neither gone nor missed.
pub proof fn a_present_peer_is_not_missed(
    missed: &mut Keyed<u64>,
    links: Vec<LinkSeen>,
    present: Vec<String>,
    gone: Vec<String>,
    i: int,
)
    requires
        reconcile::distinct_links(links@),
        0 <= i < links@.len(),
        !links@[i].expected || holds(present@, links@[i].pid@),
        call_ensures(reconcile, (missed, &links, &present), gone),
    ensures
        !holds(gone@, links@[i].pid@),
        !final(missed)@.contains_key(links@[i].pid@),
{
    let p = links@[i].pid@;
    assert(holds(present@, p) == keyed::listed(present@, p));
    assert(!reconcile::is_absent(links@, present@, p)) by {
        if reconcile::is_absent(links@, present@, p) {
            let j = choose|j: int|
                0 <= j < links@.len() && (#[trigger] links@[j]).pid@ == p && links@[j].expected
                    && !keyed::listed(present@, p);
            if j < i {
                assert(links@[j].pid@ != links@[i].pid@);
            }
            if i < j {
                assert(links@[i].pid@ != links@[j].pid@);
            }
        }
    }
    assert(reconcile::is_linked(links@, p));
    assert(keyed::listed(gone@, p) == reconcile::is_gone(old(missed)@.contains_key(p), false));
    assert(final(missed)@.contains_key(p) == reconcile::misses(
        old(missed)@.contains_key(p),
        true,
        false,
    ));
    assert(holds(gone@, p) == keyed::listed(gone@, p));
}

proof fn ids_by_place(a: Seq<frame::Json>)
    ensures
        forall|i: int|
            0 <= i < a.len() && (#[trigger] a[i]) is Text ==> frame::texts(a).contains(a[i]->Text_0),
        forall|k: int|
            0 <= k < frame::texts(a).len() ==> a.contains(
                frame::Json::Text(#[trigger] frame::texts(a)[k]),
            ),
    decreases a.len(),
{
    if a.len() > 0 {
        let b = a.drop_last();
        ids_by_place(b);
        let was = frame::texts(b);
        let now = frame::texts(a);
        assert forall|i: int| 0 <= i < a.len() && (#[trigger] a[i]) is Text implies now.contains(
            a[i]->Text_0,
        ) by {
            if i < b.len() {
                assert(b[i] == a[i]);
                assert(was.contains(b[i]->Text_0));
                assert(now[was.index_of(b[i]->Text_0)] == a[i]->Text_0);
            } else {
                assert(now[now.len() - 1] == a[i]->Text_0);
            }
        }
        assert forall|k: int| 0 <= k < now.len() implies a.contains(
            frame::Json::Text(#[trigger] now[k]),
        ) by {
            if k < was.len() {
                assert(now[k] == was[k]);
                assert(b.contains(frame::Json::Text(was[k])));
                assert(a[b.index_of(frame::Json::Text(was[k]))] == frame::Json::Text(now[k]));
            } else {
                assert(a[a.len() - 1] == frame::Json::Text(now[k]));
            }
        }
    }
}

/// The ids of a roster are those that its entries carry.
pub proof fn a_roster_holds_its_ids(peers: Vec<serde_json::Value>, r: Vec<String>, i: int, k: int)
    requires
        call_ensures(roster_ids, (&peers,), r),
    ensures
        0 <= i < peers@.len() ==> (frame::json(peers@[i]).member("id"@) matches frame::Json::Text(t)
            ==> holds(r@, t)),
        0 <= k < r@.len() ==> exists|j: int|
            0 <= j < peers@.len() && frame::json(#[trigger] peers@[j]).member("id"@)
                == frame::Json::Text(r@[k]@),
{
    let a = Seq::new(peers@.len(), |i: int| frame::json(peers@[i]).member("id"@));
    ids_by_place(a);
    assert(frame::views(r@) == frame::texts(a));
    if 0 <= i < peers@.len() && frame::json(peers@[i]).member("id"@) is Text {
        let t = frame::json(peers@[i]).member("id"@)->Text_0;
        assert(a[i] is Text);
        assert(frame::texts(a).contains(t));
        let n = frame::texts(a).index_of(t);
        assert(frame::views(r@)[n] == r@[n]@);
    }
    if 0 <= k < r@.len() {
        assert(frame::views(r@)[k] == r@[k]@);
        let t = frame::texts(a)[k];
        assert(a.contains(frame::Json::Text(t)));
        let j = a.index_of(frame::Json::Text(t));
        assert(frame::json(peers@[j]).member("id"@) == a[j]);
    }
}

/// A peer of the room is unknown where it has an id and there is no link to it; a link is the room's
/// where it has neither a secret nor anything to do with the fleet.
pub proof fn who_is_unknown(p: serde_json::Value, linked: Vec<String>, r: bool, secret: bool, pending: bool, verified: bool, s: bool)
    requires
        call_ensures(is_unknown, (&p, &linked), r),
        call_ensures(room_sourced, (secret, pending, verified), s),
    ensures
        frame::json(p).member("id"@) !is Text ==> !r,
        frame::json(p).member("id"@) matches frame::Json::Text(t) ==> (r <==> t.len() > 0 && !holds(
            linked@,
            t,
        )),
        s <==> !secret && !pending && !verified,
{
    if frame::json(p).member("id"@) is Text {
        let t = frame::json(p).member("id"@)->Text_0;
        assert(holds(linked@, t) == keyed::listed(linked@, t));
    }
}

/// What is listened to: the channels of all devices, that to enroll on and that of the fleet, each
/// once more at most.
pub proof fn every_channel_is_listened_to(devices: Vec<String>, enroll: Option<String>, fleet: Option<String>, r: Vec<String>, t: Seq<char>, i: int)
    requires
        call_ensures(subscription, (&devices, enroll, fleet), r),
    ensures
        0 <= i < devices@.len() ==> r@[i] == devices@[i] && i < r@.len(),
        enroll is Some ==> holds(r@, enroll->0@),
        fleet is Some ==> holds(r@, fleet->0@),
        holds(r@, t) ==> holds(devices@, t) || (enroll is Some && t == enroll->0@) || (fleet is Some
            && t == fleet->0@),
        devices@.len() <= r@.len() <= devices@.len() + 2,
{
    let a = channels::with_extra(devices@, enroll);
    let b = channels::with_extra(a, fleet);
    extra_is_held(devices@, enroll);
    extra_is_held(a, fleet);
    if enroll is Some {
        assert(holds(a, enroll->0@));
        let k = choose|k: int| 0 <= k < a.len() && (#[trigger] a[k])@ == enroll->0@;
        assert(b[k] == a[k]);
    }
    if holds(r@, t) {
        let k = choose|k: int| 0 <= k < b.len() && (#[trigger] b[k])@ == t;
        if k < a.len() {
            assert(b[k] == a[k]);
            if k < devices@.len() {
                assert(a[k] == devices@[k]);
            }
        }
    }
}

proof fn extra_is_held(v: Seq<String>, x: Option<String>)
    ensures
        x is Some ==> holds(channels::with_extra(v, x), x->0@),
{
    if x is Some && !keyed::listed(v, x->0@) {
        let w = v.push(x->0);
        assert(w[v.len() as int]@ == x->0@);
    }
}

proof fn without_holds(v: Seq<String>, x: Seq<char>)
    ensures
        forall|i: int|
            0 <= i < v.len() && (#[trigger] v[i])@ != x ==> channels::without(v, x).contains(v[i]),
        forall|i: int|
            0 <= i < channels::without(v, x).len() ==> (#[trigger] channels::without(v, x)[i])@ != x,
    decreases v.len(),
{
    if v.len() > 0 {
        let w = v.drop_last();
        without_holds(w, x);
        let was = channels::without(w, x);
        let now = channels::without(v, x);
        assert forall|i: int| 0 <= i < v.len() && (#[trigger] v[i])@ != x implies now.contains(v[i]) by {
            if i < w.len() {
                assert(w[i] == v[i]);
                assert(was.contains(w[i]));
                assert(now[was.index_of(w[i])] == v[i]);
            } else {
                assert(now[now.len() - 1] == v[i]);
            }
        }
    }
}

/// The channel to enroll on is listened to while an invitation is open, and only then; no other
/// channel is left on that account.
pub proof fn the_invitation_opens_its_channel(c: &mut Vec<String>, enroll: &str, armed: bool, r: ArmStep, i: int)
    requires
        call_ensures(arm_gate, (c, enroll, armed), r),
        0 <= i < old(c)@.len(),
    ensures
        armed && !holds(old(c)@, enroll@) ==> r is Subscribe,
        !armed && holds(old(c)@, enroll@) ==> r is Leave,
        armed == holds(old(c)@, enroll@) ==> r is Nothing && final(c)@ == old(c)@,
        holds(final(c)@, enroll@) == armed,
        old(c)@[i]@ != enroll@ ==> final(c)@.contains(old(c)@[i]),
{
    without_holds(old(c)@, enroll@);
    assert(holds(old(c)@, enroll@) == keyed::listed(old(c)@, enroll@));
    assert(holds(final(c)@, enroll@) == keyed::listed(final(c)@, enroll@));
    if r is Subscribe {
        assert(final(c)@.drop_last()[i] == final(c)@[i]);
    }
    if r is Nothing {
        assert(final(c)@[i] == old(c)@[i]);
    }
}

/// A stored device is new where it was not known and does not come earlier in the store; all of them
/// are known from then on, and none is forgotten.
pub proof fn each_stored_device_is_new_once(known: &mut Vec<String>, stored: Vec<String>, r: Vec<bool>, i: int, t: Seq<char>)
    requires
        call_ensures(scan, (known, &stored), r),
    ensures
        r@.len() == stored@.len(),
        0 <= i < stored@.len() ==> {
            &&& r@[i] ==> !holds(old(known)@, stored@[i]@)
            &&& !holds(old(known)@, stored@[i]@) && (forall|j: int|
                0 <= j < i ==> (#[trigger] stored@[j])@ != stored@[i]@) ==> r@[i]
            &&& holds(final(known)@, stored@[i]@)
        },
        holds(old(known)@, t) ==> holds(final(known)@, t),
        holds(final(known)@, t) ==> holds(old(known)@, t) || holds(stored@, t),
{
    assert(channels::is_union(final(known)@, old(known)@, stored@));
    assert(keyed::listed(final(known)@, t) == (keyed::listed(old(known)@, t) || keyed::listed(
        stored@,
        t,
    )));
    assert(holds(final(known)@, t) == keyed::listed(final(known)@, t));
    assert(holds(old(known)@, t) == keyed::listed(old(known)@, t));
    assert(holds(stored@, t) == keyed::listed(stored@, t));
    if 0 <= i < stored@.len() {
        let u = stored@[i]@;
        assert(r@[i] == channels::is_new(old(known)@, stored@, i));
        assert(keyed::listed(stored@, u));
        assert(keyed::listed(final(known)@, u) == (keyed::listed(old(known)@, u) || keyed::listed(
            stored@,
            u,
        )));
        assert(holds(final(known)@, u) == keyed::listed(final(known)@, u));
        assert(holds(old(known)@, u) == keyed::listed(old(known)@, u));
    }
}

/// Of a peer without a link nothing changes.
pub proof fn a_peer_without_a_link_is_left(
    missed: &mut Keyed<u64>,
    links: Vec<LinkSeen>,
    present: Vec<String>,
    gone: Vec<String>,
    p: Seq<char>,
)
    requires
        call_ensures(reconcile, (missed, &links, &present), gone),
        forall|i: int| 0 <= i < links@.len() ==> (#[trigger] links@[i]).pid@ != p,
    ensures
        !holds(gone@, p),
        final(missed)@.contains_key(p) == old(missed)@.contains_key(p),
{
    assert(!reconcile::is_absent(links@, present@, p));
    assert(!reconcile::is_linked(links@, p));
    assert(keyed::listed(gone@, p) == reconcile::is_gone(old(missed)@.contains_key(p), false));
    assert(final(missed)@.contains_key(p) == reconcile::misses(
        old(missed)@.contains_key(p),
        false,
        false,
    ));
    assert(holds(gone@, p) == keyed::listed(gone@, p));
}

/// What is listened to beside the devices comes after them: that to enroll on, and then the fleet's.
pub proof fn channels_come_in_order(devices: Vec<String>, enroll: String, fleet: String, r: Vec<String>)
    requires
        call_ensures(subscription, (&devices, Some(enroll), Some(fleet)), r),
        !holds(devices@, enroll@),
        !holds(devices@, fleet@),
        enroll@ != fleet@,
    ensures
        r@ == devices@.push(enroll).push(fleet),
{
    let a = devices@.push(enroll);
    assert(holds(devices@, enroll@) == keyed::listed(devices@, enroll@));
    assert(holds(devices@, fleet@) == keyed::listed(devices@, fleet@));
    assert(!keyed::listed(a, fleet@)) by {
        if keyed::listed(a, fleet@) {
            let i = choose|i: int| 0 <= i < a.len() && (#[trigger] a[i])@ == fleet@;
            if i < devices@.len() {
                assert(devices@[i]@ == fleet@);
            }
        }
    }
}

} // verus!
