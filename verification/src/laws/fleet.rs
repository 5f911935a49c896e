//! Links to devices of the fleet: who still has to prove itself, who has, and what waits for that.

use vstd::prelude::*;
use vstd::string::*;
use crate::fleet_links;
use crate::fleet_links::{
    device_name, dials, Deferred, FleetLinks, HelloStep, HelloVerdict,
};
use crate::frame;
use crate::text;

verus! {

broadcast use frame::with_sets_one_member;

/// Nothing is known of anybody at first.
pub proof fn nobody_is_known_at_first(r: FleetLinks, p: Seq<char>)
    requires
        call_ensures(FleetLinks::new, (), r),
    ensures
        !r.pending@.contains_key(p),
        !r.verified@.contains_key(p),
        !r.greeted@.contains_key(p),
        !r.bind_ours@.contains_key(p),
        !r.bind_theirs@.contains_key(p),
{
    assert(r.knows_nothing_of(p));
}

/// A device that appears, or whose link comes up as one of the fleet's, has to prove itself unless
/// it has; nobody is taken for proved on that account.
pub proof fn who_appears_has_to_prove_itself(
    f: &mut FleetLinks,
    g: &mut FleetLinks,
    pid: &str,
    in_fleet: bool,
    shaped: bool,
    r: bool,
    other: Seq<char>,
)
    requires
        call_ensures(FleetLinks::appeared, (f, pid), ()),
        call_ensures(FleetLinks::link_up, (g, pid, in_fleet, shaped), r),
    ensures
        pid@.len() > 0 && !old(f).verified@.contains_key(pid@) ==> final(f).pending@.contains_key(pid@),
        pid@.len() == 0 || old(f).verified@.contains_key(pid@) ==> final(f).pending@ == old(f).pending@,
        final(f).verified == old(f).verified,
        r <==> in_fleet && !old(g).verified@.contains_key(pid@) && (shaped || old(
            g,
        ).pending@.contains_key(pid@)),
        r ==> final(g).pending@.contains_key(pid@),
        !r ==> final(g).pending@ == old(g).pending@,
        final(g).verified == old(g).verified,
        final(g).deferred == old(g).deferred,
        other != pid@ ==> final(f).pending@.contains_key(other) == old(f).pending@.contains_key(other),
        other != pid@ ==> final(g).pending@.contains_key(other) == old(g).pending@.contains_key(other),
{
}

/// A device is greeted once.
pub proof fn a_device_is_greeted_once(f: &mut FleetLinks, g: &mut FleetLinks, pid: &str, r: bool, s: bool)
    requires
        call_ensures(FleetLinks::greet, (f, pid), r),
        *old(g) == *final(f),
        call_ensures(FleetLinks::greet, (g, pid), s),
    ensures
        r <==> !old(f).greeted@.contains_key(pid@),
        !s,
        final(f).verified == old(f).verified,
        final(f).pending == old(f).pending,
{
}

/// Our nonce for a link is made once and stays.
pub proof fn our_nonce_stays(
    f: &mut FleetLinks,
    g: &mut FleetLinks,
    pid: &str,
    fresh: Vec<u8>,
    again: Vec<u8>,
    r: Vec<u8>,
    s: Vec<u8>,
    other: Seq<char>,
)
    requires
        call_ensures(FleetLinks::our_nonce, (f, pid, fresh), r),
        *old(g) == *final(f),
        call_ensures(FleetLinks::our_nonce, (g, pid, again), s),
    ensures
        !old(f).bind_ours@.contains_key(pid@) ==> r@ == fresh@,
        old(f).bind_ours@.contains_key(pid@) ==> r@ == old(f).bind_ours@[pid@]@,
        s@ == r@,
        final(f).bind_theirs == old(f).bind_theirs,
        other != pid@ ==> final(f).bind_ours@.contains_key(other) == old(f).bind_ours@.contains_key(
            other,
        ),
{
    if other != pid@ && !old(f).bind_ours@.contains_key(pid@) {
        assert(final(f).bind_ours@.remove(pid@).contains_key(other) == old(
            f,
        ).bind_ours@.contains_key(other));
    }
}

/// A nonce of sixteen bytes at least is taken for the peer's half, and nothing shorter.
pub proof fn a_short_nonce_is_none(f: &mut FleetLinks, pid: &str, nonce: Option<Vec<u8>>, r: bool)
    requires
        call_ensures(FleetLinks::their_nonce, (f, pid, nonce), r),
    ensures
        nonce is None ==> !r,
        nonce is Some ==> (r <==> nonce->0@.len() >= 16),
        r ==> final(f).bind_theirs@.contains_key(pid@) && final(f).bind_theirs@[pid@] == nonce->0,
        !r ==> final(f).bind_theirs@ == old(f).bind_theirs@,
        final(f).bind_ours == old(f).bind_ours,
        final(f).verified == old(f).verified,
{
}

proof fn split_by_peer(s: Seq<Deferred>, p: Seq<char>, now: u64)
    ensures
        forall|i: int|
            0 <= i < s.len() && (#[trigger] s[i]).pid@ == p ==> fleet_links::picks(
                s,
                Some(p),
                now,
            ).contains(s[i]),
        forall|i: int|
            0 <= i < s.len() && (#[trigger] s[i]).pid@ != p ==> fleet_links::leaves(
                s,
                Some(p),
                now,
            ).contains(s[i]),
        forall|i: int|
            0 <= i < fleet_links::picks(s, Some(p), now).len() ==> (#[trigger] fleet_links::picks(
                s,
                Some(p),
                now,
            )[i]).pid@ == p && s.contains(fleet_links::picks(s, Some(p), now)[i]),
        forall|i: int|
            0 <= i < fleet_links::leaves(s, Some(p), now).len() ==> (#[trigger] fleet_links::leaves(
                s,
                Some(p),
                now,
            )[i]).pid@ != p,
    decreases s.len(),
{
    if s.len() > 0 {
        let t = s.drop_last();
        split_by_peer(t, p, now);
        let a = fleet_links::picks(t, Some(p), now);
        let b = fleet_links::picks(s, Some(p), now);
        let c = fleet_links::leaves(t, Some(p), now);
        let d = fleet_links::leaves(s, Some(p), now);
        assert forall|i: int| 0 <= i < s.len() && (#[trigger] s[i]).pid@ == p implies b.contains(s[i]) by {
            if i < t.len() {
                assert(t[i] == s[i]);
                assert(a.contains(t[i]));
                assert(b[a.index_of(t[i])] == s[i]);
            } else {
                assert(b[b.len() - 1] == s[i]);
            }
        }
        assert forall|i: int| 0 <= i < s.len() && (#[trigger] s[i]).pid@ != p implies d.contains(s[i]) by {
            if i < t.len() {
                assert(t[i] == s[i]);
                assert(c.contains(t[i]));
                assert(d[c.index_of(t[i])] == s[i]);
            } else {
                assert(d[d.len() - 1] == s[i]);
            }
        }
        assert forall|i: int| 0 <= i < b.len() implies (#[trigger] b[i]).pid@ == p && s.contains(b[i]) by {
            if i < a.len() {
                assert(b[i] == a[i]);
                assert(t.contains(a[i]));
                assert(s[t.index_of(a[i])] == b[i]);
            } else {
                assert(b[i] == s[s.len() - 1]);
            }
        }
        assert forall|i: int| 0 <= i < d.len() implies (#[trigger] d[i]).pid@ != p by {
            if i < c.len() {
                assert(d[i] == c[i]);
            }
        }
    }
}

/// A device that proved itself is welcome, and gets back the offers that waited for it and no
/// others; one that was refused is dropped with them; and a certificate that is bound to nothing
/// changes nothing.
pub proof fn a_certificate_decides(f: &mut FleetLinks, pid: &str, verdict: HelloVerdict, r: HelloStep, i: int)
    requires
        call_ensures(FleetLinks::hello, (f, pid, verdict), r),
        0 <= i < old(f).deferred@.len(),
    ensures
        verdict is Unbound ==> r is Ignore && *final(f) == *old(f),
        verdict is Refused ==> r is Drop && !final(f).pending@.contains_key(pid@) && final(f).verified
            == old(f).verified,
        verdict is Verified ==> r is Welcome && final(f).verified@.contains_key(pid@) && final(f).greeted@.contains_key(pid@),
        r matches HelloStep::Welcome { fresh, greet, replay } ==> {
            &&& fresh <==> !old(f).verified@.contains_key(pid@)
            &&& greet <==> !old(f).greeted@.contains_key(pid@)
            &&& old(f).deferred@[i].pid@ == pid@ ==> replay@.contains(old(f).deferred@[i])
            &&& forall|k: int| 0 <= k < replay@.len() ==> (#[trigger] replay@[k]).pid@ == pid@
        },
        verdict !is Unbound ==> forall|k: int|
            0 <= k < final(f).deferred@.len() ==> (#[trigger] final(f).deferred@[k]).pid@ != pid@,
        old(f).deferred@[i].pid@ != pid@ ==> final(f).deferred@.contains(old(f).deferred@[i]),
{
    split_by_peer(old(f).deferred@, pid@, 0);
    if verdict is Unbound {
        assert(final(f).deferred@[i] == old(f).deferred@[i]);
    }
}

/// Proving oneself is for oneself.
pub proof fn one_proof_is_not_anothers(f: &mut FleetLinks, pid: &str, verdict: HelloVerdict, r: HelloStep, other: Seq<char>)
    requires
        call_ensures(FleetLinks::hello, (f, pid, verdict), r),
        other != pid@,
    ensures
        final(f).verified@.contains_key(other) == old(f).verified@.contains_key(other),
        final(f).pending@.contains_key(other) == old(f).pending@.contains_key(other),
        final(f).greeted@.contains_key(other) == old(f).greeted@.contains_key(other),
{
}

/// An offer that is put off waits for its peer, as it came, until the grace is over.
pub proof fn a_deferred_offer_waits(f: &mut FleetLinks, pid: &str, v: serde_json::Value, now: u64, grace: u64, i: int)
    requires
        call_ensures(FleetLinks::defer, (f, pid, v, now, grace), ()),
        0 <= i < old(f).deferred@.len(),
    ensures
        final(f).deferred@.len() == old(f).deferred@.len() + 1,
        final(f).deferred@[i] == old(f).deferred@[i],
        final(f).deferred@.last().pid@ == pid@,
        final(f).deferred@.last().offer == v,
        now + grace <= u64::MAX ==> final(f).deferred@.last().deadline == now + grace,
{
    assert(final(f).deferred@.drop_last()[i] == final(f).deferred@[i]);
}

proof fn split_by_time(s: Seq<Deferred>, now: u64)
    ensures
        forall|i: int|
            0 <= i < s.len() && (#[trigger] s[i]).deadline < now ==> fleet_links::picks(
                s,
                None,
                now,
            ).contains(s[i]),
        forall|i: int|
            0 <= i < s.len() && (#[trigger] s[i]).deadline >= now ==> fleet_links::leaves(
                s,
                None,
                now,
            ).contains(s[i]),
        forall|i: int|
            0 <= i < fleet_links::picks(s, None, now).len() ==> (#[trigger] fleet_links::picks(
                s,
                None,
                now,
            )[i]).deadline < now && s.contains(fleet_links::picks(s, None, now)[i]),
        forall|i: int|
            0 <= i < fleet_links::leaves(s, None, now).len() ==> (#[trigger] fleet_links::leaves(
                s,
                None,
                now,
            )[i]).deadline >= now,
    decreases s.len(),
{
    if s.len() > 0 {
        let t = s.drop_last();
        split_by_time(t, now);
        let a = fleet_links::picks(t, None, now);
        let b = fleet_links::picks(s, None, now);
        let c = fleet_links::leaves(t, None, now);
        let d = fleet_links::leaves(s, None, now);
        assert forall|i: int| 0 <= i < s.len() && (#[trigger] s[i]).deadline < now implies b.contains(
            s[i],
        ) by {
            if i < t.len() {
                assert(t[i] == s[i]);
                assert(a.contains(t[i]));
                assert(b[a.index_of(t[i])] == s[i]);
            } else {
                assert(b[b.len() - 1] == s[i]);
            }
        }
        assert forall|i: int| 0 <= i < s.len() && (#[trigger] s[i]).deadline >= now implies d.contains(
            s[i],
        ) by {
            if i < t.len() {
                assert(t[i] == s[i]);
                assert(c.contains(t[i]));
                assert(d[c.index_of(t[i])] == s[i]);
            } else {
                assert(d[d.len() - 1] == s[i]);
            }
        }
        assert forall|i: int| 0 <= i < b.len() implies (#[trigger] b[i]).deadline < now && s.contains(
            b[i],
        ) by {
            if i < a.len() {
                assert(b[i] == a[i]);
                assert(t.contains(a[i]));
                assert(s[t.index_of(a[i])] == b[i]);
            } else {
                assert(b[i] == s[s.len() - 1]);
            }
        }
        assert forall|i: int| 0 <= i < d.len() implies (#[trigger] d[i]).deadline >= now by {
            if i < c.len() {
                assert(d[i] == c[i]);
            }
        }
    }
}

/// An offer whose grace is over is looked at again and says that it has waited; the others go on
/// waiting.
pub proof fn an_overdue_offer_is_looked_at_again(f: &mut FleetLinks, now: u64, r: Vec<Deferred>, i: int, k: int)
    requires
        old(f).wf(),
        call_ensures(FleetLinks::overdue, (f, now), r),
        0 <= i < old(f).deferred@.len(),
        0 <= k < r@.len(),
    ensures
        old(f).deferred@[i].deadline >= now ==> final(f).deferred@.contains(old(f).deferred@[i]),
        forall|j: int|
            0 <= j < final(f).deferred@.len() ==> (#[trigger] final(f).deferred@[j]).deadline >= now,
        frame::json(r@[k].offer).member("__fleet_waited"@) == frame::Json::Bool(true),
        exists|j: int|
            0 <= j < old(f).deferred@.len() && (#[trigger] old(f).deferred@[j]).pid == r@[k].pid
                && old(f).deferred@[j].deadline < now && frame::json(r@[k].offer) == frame::json(
                old(f).deferred@[j].offer,
            ).with("__fleet_waited"@, frame::Json::Bool(true)),
{
    let s = old(f).deferred@;
    split_by_time(s, now);
    let p = fleet_links::picks(s, None, now);
    assert(fleet_links::waited(p[k], r@[k]));
    assert(s.contains(p[k]));
    let j = s.index_of(p[k]);
    assert(s[j] == p[k]);
    assert(frame::json(s[j].offer) is Object);
}

/// With its link a device is forgotten, and no other is.
pub proof fn a_device_is_forgotten_with_its_link(f: &mut FleetLinks, pid: &str, other: Seq<char>)
    requires
        call_ensures(FleetLinks::drop_link, (f, pid), ()),
    ensures
        !final(f).pending@.contains_key(pid@),
        !final(f).verified@.contains_key(pid@),
        !final(f).greeted@.contains_key(pid@),
        !final(f).bind_ours@.contains_key(pid@),
        !final(f).bind_theirs@.contains_key(pid@),
        forall|k: int|
            0 <= k < final(f).deferred@.len() ==> (#[trigger] final(f).deferred@[k]).pid@ != pid@,
        other != pid@ ==> {
            &&& final(f).pending@.contains_key(other) == old(f).pending@.contains_key(other)
            &&& final(f).verified@.contains_key(other) == old(f).verified@.contains_key(other)
            &&& final(f).greeted@.contains_key(other) == old(f).greeted@.contains_key(other)
            &&& final(f).bind_ours@.contains_key(other) == old(f).bind_ours@.contains_key(other)
            &&& final(f).bind_theirs@.contains_key(other) == old(f).bind_theirs@.contains_key(other)
        },
{
    split_by_peer(old(f).deferred@, pid@, 0);
}

/// A meeting place is taken from a proved device alone, with a secret of sixty-four hexadecimal
/// digits.
pub proof fn only_a_proved_device_arranges_a_meeting(f: FleetLinks, pid: &str, v: serde_json::Value, r: Option<String>, s: Seq<char>)
    requires
        call_ensures(FleetLinks::rendezvous, (&f, pid, &v), r),
    ensures
        !f.verified@.contains_key(pid@) ==> r is None,
        frame::json(v).member("secret"@) !is Text ==> r is None,
        frame::json(v).member("secret"@) == frame::Json::Text(s) ==> {
            &&& r is Some ==> r->0@ == s && s.len() == 64
            &&& f.verified@.contains_key(pid@) && s.len() == 64 && (forall|i: int|
                0 <= i < s.len() ==> ('0' <= #[trigger] s[i] <= '9' || 'a' <= s[i] <= 'f' || 'A' <= s[i]
                    <= 'F')) ==> r is Some
        },
{
    if frame::json(v).member("secret"@) == frame::Json::Text(s) && s.len() == 64 && (forall|i: int|
        0 <= i < s.len() ==> ('0' <= #[trigger] s[i] <= '9' || 'a' <= s[i] <= 'f' || 'A' <= s[i]
            <= 'F')) {
        assert(crate::hexadecimal::is_hex(s)) by {
            assert forall|i: int| 0 <= i < s.len() implies crate::hexadecimal::hex_value(
                #[trigger] s[i],
            ) is Some by {}
        }
    }
}

/// A device is called by the name it has proved, and by the one it claims otherwise, which is only a
/// claim.
pub proof fn a_proved_name_comes_first(proven: Option<&str>, claimed: &str, r: (String, bool))
    requires
        call_ensures(device_name, (proven, claimed), r),
    ensures
        proven is Some ==> r.0@ == proven->0@ && !r.1,
        proven is None ==> r.0@ == claimed@ && r.1,
{
}

/// Of two devices just one dials.
pub proof fn one_of_two_dials(a: &str, b: &str, r: bool, s: bool)
    requires
        call_ensures(dials, (a, b), r),
        call_ensures(dials, (b, a), s),
    ensures
        a@ != b@ ==> r != s,
        a@ == b@ ==> !r && !s,
        a@.len() > 0 && b@.len() > 0 && (a@[0] as int) < (b@[0] as int) ==> r,
{
    text::precedes_is_strict_and_total(a@, b@);
}

/// What is noted of one device touches nothing else.
pub proof fn what_is_noted_touches_nothing_else(
    a: &mut FleetLinks,
    l: &mut FleetLinks,
    g: &mut FleetLinks,
    o: &mut FleetLinks,
    t: &mut FleetLinks,
    d: &mut FleetLinks,
    w: &mut FleetLinks,
    pid: &str,
    flags: (bool, bool),
    fresh: Vec<u8>,
    nonce: Option<Vec<u8>>,
    v: serde_json::Value,
    now: u64,
    grace: u64,
    r: (bool, bool, Vec<u8>, bool, Vec<Deferred>),
)
    requires
        call_ensures(FleetLinks::appeared, (a, pid), ()),
        call_ensures(FleetLinks::link_up, (l, pid, flags.0, flags.1), r.0),
        call_ensures(FleetLinks::greet, (g, pid), r.1),
        call_ensures(FleetLinks::our_nonce, (o, pid, fresh), r.2),
        call_ensures(FleetLinks::their_nonce, (t, pid, nonce), r.3),
        call_ensures(FleetLinks::defer, (d, pid, v, now, grace), ()),
        call_ensures(FleetLinks::overdue, (w, now), r.4),
    ensures
        *final(a) == (FleetLinks { pending: final(a).pending, ..*old(a) }),
        *final(l) == (FleetLinks { pending: final(l).pending, ..*old(l) }),
        *final(g) == (FleetLinks { greeted: final(g).greeted, ..*old(g) }),
        *final(o) == (FleetLinks { bind_ours: final(o).bind_ours, ..*old(o) }),
        *final(t) == (FleetLinks { bind_theirs: final(t).bind_theirs, ..*old(t) }),
        *final(d) == (FleetLinks { deferred: final(d).deferred, ..*old(d) }),
        *final(w) == (FleetLinks { deferred: final(w).deferred, ..*old(w) }),
{
}

/// A certificate binds nothing anew, and one that was refused leaves whom was greeted.
pub proof fn a_certificate_binds_nothing_anew(f: &mut FleetLinks, pid: &str, verdict: HelloVerdict, r: HelloStep)
    requires
        call_ensures(FleetLinks::hello, (f, pid, verdict), r),
    ensures
        final(f).bind_ours == old(f).bind_ours,
        final(f).bind_theirs == old(f).bind_theirs,
        verdict is Refused ==> final(f).greeted == old(f).greeted,
        verdict is Verified ==> final(f).pending == old(f).pending,
{
}

/// What `FleetLinks::appeared` does not concern, of the fleet, stays as it is.
pub proof fn what_appeared_leaves_alone(
    q: &mut FleetLinks,
    pid: &str,
)
    requires
        call_ensures(FleetLinks::appeared, (q, pid), ()),
    ensures
        final(q).verified == old(q).verified,
        final(q).greeted == old(q).greeted,
        final(q).deferred == old(q).deferred,
        final(q).bind_ours == old(q).bind_ours,
        final(q).bind_theirs == old(q).bind_theirs,
{
}

/// What `FleetLinks::link_up` does not concern, of the fleet, stays as it is.
pub proof fn what_link_up_leaves_alone(
    q: &mut FleetLinks,
    pid: &str,
    in_fleet: bool,
    shaped: bool,
    r: bool,
)
    requires
        call_ensures(FleetLinks::link_up, (q, pid, in_fleet, shaped), r),
    ensures
        final(q).verified == old(q).verified,
        final(q).greeted == old(q).greeted,
        final(q).deferred == old(q).deferred,
        final(q).bind_ours == old(q).bind_ours,
        final(q).bind_theirs == old(q).bind_theirs,
{
}

/// What `FleetLinks::greet` does not concern, of the fleet, stays as it is.
pub proof fn what_greet_leaves_alone(
    q: &mut FleetLinks,
    pid: &str,
    r: bool,
)
    requires
        call_ensures(FleetLinks::greet, (q, pid), r),
    ensures
        final(q).pending == old(q).pending,
        final(q).verified == old(q).verified,
        final(q).deferred == old(q).deferred,
        final(q).bind_ours == old(q).bind_ours,
        final(q).bind_theirs == old(q).bind_theirs,
{
}

/// What `FleetLinks::our_nonce` does not concern, of the fleet, stays as it is.
pub proof fn what_our_nonce_leaves_alone(
    q: &mut FleetLinks,
    pid: &str,
    fresh: Vec<u8>,
    r: Vec<u8>,
)
    requires
        call_ensures(FleetLinks::our_nonce, (q, pid, fresh), r),
    ensures
        final(q).pending == old(q).pending,
        final(q).verified == old(q).verified,
        final(q).greeted == old(q).greeted,
        final(q).deferred == old(q).deferred,
        final(q).bind_theirs == old(q).bind_theirs,
{
}

/// What `FleetLinks::their_nonce` does not concern, of the fleet, stays as it is.
pub proof fn what_their_nonce_leaves_alone(
    q: &mut FleetLinks,
    pid: &str,
    nonce: Option<Vec<u8>>,
    r: bool,
)
    requires
        call_ensures(FleetLinks::their_nonce, (q, pid, nonce), r),
    ensures
        final(q).pending == old(q).pending,
        final(q).verified == old(q).verified,
        final(q).greeted == old(q).greeted,
        final(q).deferred == old(q).deferred,
        final(q).bind_ours == old(q).bind_ours,
{
}

/// What `FleetLinks::hello` does not concern, of the fleet, stays as it is.
pub proof fn what_hello_leaves_alone(
    q: &mut FleetLinks,
    pid: &str,
    verdict: HelloVerdict,
    r: HelloStep,
)
    requires
        call_ensures(FleetLinks::hello, (q, pid, verdict), r),
    ensures
        final(q).bind_ours == old(q).bind_ours,
        final(q).bind_theirs == old(q).bind_theirs,
{
}

/// What `FleetLinks::defer` does not concern, of the fleet, stays as it is.
pub proof fn what_defer_leaves_alone(
    q: &mut FleetLinks,
    pid: &str,
    v: serde_json::Value,
    now: u64,
    grace: u64,
)
    requires
        call_ensures(FleetLinks::defer, (q, pid, v, now, grace), ()),
    ensures
        final(q).pending == old(q).pending,
        final(q).verified == old(q).verified,
        final(q).greeted == old(q).greeted,
        final(q).bind_ours == old(q).bind_ours,
        final(q).bind_theirs == old(q).bind_theirs,
{
}

/// What `FleetLinks::overdue` does not concern, of the fleet, stays as it is.
pub proof fn what_overdue_leaves_alone(
    q: &mut FleetLinks,
    now: u64,
    r: Vec<Deferred>,
)
    requires
        call_ensures(FleetLinks::overdue, (q, now), r),
    ensures
        final(q).pending == old(q).pending,
        final(q).verified == old(q).verified,
        final(q).greeted == old(q).greeted,
        final(q).bind_ours == old(q).bind_ours,
        final(q).bind_theirs == old(q).bind_theirs,
{
}

} // verus!
