//! The overlay: whose address and routes are taken in, and the frames about tunnels and leaving.

use vstd::prelude::*;
use vstd::string::*;
use crate::frame;
use crate::hexadecimal;
use crate::overlay_links;
use crate::overlay_links::{
    advance, ceiling_routes, departed_frame, hears_announce, installable_routes, key_frame,
    parse_challenge, parse_depart, takes_replay, tunnel_key, worker_ports, Challenge, Depart, Stage,
    TunnelStep,
};
use crate::text;

verus! {

broadcast use frame::with_sets_one_member;

proof fn keys_are_apart()
    ensures
        "name"@.len() == 4,
        "name"@[0] == 'n',
        "port"@.len() == 4,
        "port"@[0] == 'p',
        "type"@.len() == 4,
        "type"@[0] == 't',
        "pubkey"@.len() == 6,
{
    reveal_strlit("name");
    reveal_strlit("port");
    reveal_strlit("type");
    reveal_strlit("pubkey");
}

/// An address is checked in one order: its proof, its place in time, the pinned key, whether that is
/// provisional, its promotion and what comes of it, and the route. A no ends it, and forgets the
/// link where the pin was broken; only a provisional pin is promoted.
pub proof fn an_address_is_checked_in_order(s: Stage, yes: bool, r: Stage)
    requires
        call_ensures(advance, (s, yes), r),
    ensures
        s is Verify ==> (if yes { r is Sequence } else { r == (Stage::Stop { forget: false }) }),
        s is Sequence ==> (if yes { r is Pinned } else { r == (Stage::Stop { forget: false }) }),
        s is Pinned ==> (if yes { r is Provisional } else { r == (Stage::Stop { forget: true }) }),
        s is Provisional ==> (if yes { r is Promote } else { r is Route }),
        s is Promote ==> (if yes { r is Settle } else { r == (Stage::Stop { forget: true }) }),
        s is Settle ==> (if yes { r is Route } else { r == (Stage::Stop { forget: true }) }),
        s is Route ==> (if yes { r is Install } else { r == (Stage::Stop { forget: false }) }),
        s is Install || s is Stop ==> r == s,
        r is Install ==> s is Install || (s is Route && yes),
{
}

/// An address is heard with an overlay and a settled identity, and taken from a replay where it is
/// proved, can be routed and is newer.
pub proof fn when_an_address_is_heard(overlay: bool, pending: bool, r: bool, verified: bool, routable: bool, fresh: bool, t: bool)
    requires
        call_ensures(hears_announce, (overlay, pending), r),
        call_ensures(takes_replay, (verified, routable, fresh), t),
    ensures
        r <==> overlay && !pending,
        t <==> verified && routable && fresh,
{
}

proof fn ceiling_by_place(c: Seq<String>)
    ensures
        forall|i: int|
            0 <= i < c.len() && text::begins((#[trigger] c[i])@, "route:"@) ==> overlay_links::route_ceiling(
                c,
            ).contains(c[i]@.subrange("route:"@.len() as int, c[i]@.len() as int)),
        overlay_links::route_ceiling(c).len() <= c.len(),
    decreases c.len(),
{
    if c.len() > 0 {
        let d = c.drop_last();
        ceiling_by_place(d);
        let was = overlay_links::route_ceiling(d);
        let now = overlay_links::route_ceiling(c);
        assert forall|i: int| 0 <= i < c.len() && text::begins((#[trigger] c[i])@, "route:"@) implies now.contains(
            c[i]@.subrange("route:"@.len() as int, c[i]@.len() as int),
        ) by {
            let t = c[i]@.subrange("route:"@.len() as int, c[i]@.len() as int);
            if i < d.len() {
                assert(d[i] == c[i]);
                assert(was.contains(t));
                assert(now[was.index_of(t)] == t);
            } else {
                assert(now[now.len() - 1] == t);
            }
        }
    }
}

/// A grant of a route is a route that may be offered.
pub proof fn a_granted_route_may_be_offered(c: Vec<String>, r: Vec<String>, i: int, t: Seq<char>)
    requires
        call_ensures(ceiling_routes, (&c,), r),
        0 <= i < c@.len(),
        c@[i]@ == "route:"@ + t,
    ensures
        exists|k: int| 0 <= k < r@.len() && (#[trigger] r@[k])@ == t,
        r@.len() <= c@.len(),
{
    ceiling_by_place(c@);
    assert(c@[i]@.subrange(0, "route:"@.len() as int) =~= "route:"@);
    assert(c@[i]@.subrange("route:"@.len() as int, c@[i]@.len() as int) =~= t);
    let v = frame::views(r@);
    assert(v.contains(t));
    let k = v.index_of(t);
    assert(v[k] == r@[k]@);
}

proof fn carried_by_place(a: Seq<String>, g: Seq<bool>, accept: bool)
    requires
        g.len() >= a.len(),
    ensures
        forall|i: int|
            0 <= i < a.len() && accept && g[i] ==> overlay_links::carried(a, g, accept).contains(
                #[trigger] a[i],
            ),
        forall|k: int|
            0 <= k < overlay_links::carried(a, g, accept).len() ==> granted_at(
                a,
                g,
                #[trigger] overlay_links::carried(a, g, accept)[k],
            ),
        !accept ==> overlay_links::carried(a, g, accept).len() == 0,
    decreases a.len(),
{
    if a.len() > 0 {
        let b = a.drop_last();
        carried_by_place(b, g, accept);
        let was = overlay_links::carried(b, g, accept);
        let now = overlay_links::carried(a, g, accept);
        assert forall|i: int| 0 <= i < a.len() && accept && g[i] implies now.contains(#[trigger] a[i]) by {
            if i < b.len() {
                assert(b[i] == a[i]);
                assert(was.contains(b[i]));
                assert(now[was.index_of(b[i])] == a[i]);
            } else {
                assert(now[now.len() - 1] == a[i]);
            }
        }
        assert forall|k: int| 0 <= k < now.len() implies granted_at(a, g, #[trigger] now[k]) by {
            if k < was.len() {
                assert(now[k] == was[k]);
                assert(granted_at(b, g, was[k]));
                let i = choose|i: int| 0 <= i < b.len() && g[i] && #[trigger] b[i] == was[k];
                assert(a[i] == now[k]);
            } else {
                assert(a[a.len() - 1] == now[k]);
            }
        }
    }
}

/// This route was granted where it was advertised.
pub open spec fn granted_at(a: Seq<String>, g: Seq<bool>, x: String) -> bool {
    exists|i: int| 0 <= i < a.len() && g[i] && #[trigger] a[i] == x
}

/// The routes that are taken in are those that were granted, where routes are taken in at all.
pub proof fn only_granted_routes_are_taken_in(a: Vec<String>, g: Vec<bool>, accept: bool, r: Vec<String>, i: int, k: int)
    requires
        g@.len() == a@.len(),
        call_ensures(installable_routes, (&a, &g, accept), r),
    ensures
        !accept ==> r@.len() == 0,
        accept && 0 <= i < a@.len() && g@[i] ==> r@.contains(a@[i]),
        0 <= k < r@.len() ==> granted_at(a@, g@, r@[k]),
{
    carried_by_place(a@, g@, accept);
}

/// A peer's tunnel key is adopted where tunnels are on and can be made and there is both a way to it
/// and an overlay; it is the key and the port that the frame carries.
pub proof fn when_a_tunnel_key_is_adopted(v: serde_json::Value, on: bool, usable: bool, underlay: bool, overlay: bool, r: TunnelStep, key: Seq<char>, port: u64)
    requires
        call_ensures(tunnel_key, (&v, on, usable, underlay, overlay), r),
        frame::json(v).member("pubkey"@) == frame::Json::Text(key),
        frame::json(v).member("port"@) == frame::Json::Number(Some(port)),
    ensures
        !on || !usable ==> r is Off,
        on && usable && (!underlay || !overlay || key.len() == 0 || port == 0) ==> r is Ignore,
        on && usable && underlay && overlay && key.len() > 0 && 0 < port < 0x1_0000 ==> (
        r matches TunnelStep::Adopt { pubkey, port: p } && pubkey@ == key && p == port),
{
}

/// Our tunnel key is told with its port, and a departure is confirmed by name.
pub proof fn what_the_overlay_tells(pubkey: &str, port: u16, k: serde_json::Value, name: &str, d: serde_json::Value)
    requires
        call_ensures(key_frame, (pubkey, port), k),
        call_ensures(departed_frame, (name,), d),
    ensures
        frame::json(k).member("type"@) == frame::Json::Text("wg-key"@),
        frame::json(k).member("pubkey"@) == frame::Json::Text(pubkey@),
        frame::json(k).member("port"@) == frame::Json::Number(Some(port as u64)),
        frame::json(d).member("type"@) == frame::Json::Text("depart-ack"@),
        frame::json(d).member("name"@) == frame::Json::Text(name@),
{
    keys_are_apart();
}

/// A tunnel key that is told is the one that is adopted.
pub proof fn a_told_key_is_the_adopted_one(pubkey: &str, port: u16, v: serde_json::Value, r: TunnelStep)
    requires
        call_ensures(key_frame, (pubkey, port), v),
        call_ensures(tunnel_key, (&v, true, true, true, true), r),
        pubkey@.len() > 0,
        port != 0,
    ensures
        r matches TunnelStep::Adopt { pubkey: k, port: p } && k@ == pubkey@ && p == port,
{
    keys_are_apart();
}

/// A departure is read where it carries a device key of thirty-two bytes and a signature of
/// sixty-four, as they were written.
pub proof fn a_departure_is_read_as_written(v: serde_json::Value, r: Option<Depart>, key: Seq<u8>, sig: Seq<u8>, msg: Seq<char>)
    requires
        call_ensures(parse_depart, (&v,), r),
        frame::json(v).member("device_pub"@) == frame::Json::Text(hexadecimal::hex_text(key)),
        frame::json(v).member("sig"@) == frame::Json::Text(hexadecimal::hex_text(sig)),
        frame::json(v).member("msg"@) == frame::Json::Text(msg),
    ensures
        r is Some <==> key.len() == 32 && sig.len() == 64,
        r matches Some(d) ==> d.device_pub@ == key && d.sig@ == sig && d.msg@ == msg,
{
    hexadecimal::hex_round_trip(key);
    hexadecimal::hex_round_trip(sig);
}

/// A challenge is read where it carries a nonce and a device key of thirty-two bytes each, as they
/// were written.
pub proof fn a_challenge_is_read_as_written(v: serde_json::Value, r: Option<Challenge>, nonce: Seq<u8>, key: Seq<u8>)
    requires
        call_ensures(parse_challenge, (&v,), r),
        frame::json(v).member("nonce"@) == frame::Json::Text(hexadecimal::hex_text(nonce)),
        frame::json(v).member("receiver_device_pub"@) == frame::Json::Text(hexadecimal::hex_text(key)),
    ensures
        r is Some <==> nonce.len() == 32 && key.len() == 32,
        r matches Some(c) ==> c.nonce@ == nonce && c.receiver@ == key,
{
    hexadecimal::hex_round_trip(nonce);
    hexadecimal::hex_round_trip(key);
}

proof fn ports_of_numbers(a: Seq<frame::Json>)
    requires
        forall|i: int|
            0 <= i < a.len() ==> (#[trigger] a[i]) is Number && a[i]->Number_0 is Some
                && a[i]->Number_0->0 < 0x1_0000,
    ensures
        overlay_links::ports_in(a).len() == a.len(),
        forall|i: int|
            0 <= i < a.len() ==> overlay_links::ports_in(a)[i] == (#[trigger] a[i])->Number_0->0,
    decreases a.len(),
{
    if a.len() > 0 {
        let b = a.drop_last();
        assert forall|i: int| 0 <= i < b.len() implies (#[trigger] b[i]) is Number && b[i]->Number_0
            is Some && b[i]->Number_0->0 < 0x1_0000 by {
            assert(a[i] is Number);
        }
        ports_of_numbers(b);
        assert(a[a.len() - 1] is Number);
        assert forall|i: int| 0 <= i < a.len() implies overlay_links::ports_in(a)[i] == (
        #[trigger] a[i])->Number_0->0 by {
            if i < b.len() {
                assert(b[i] == a[i]);
            }
        }
    }
}

/// The ports of further connections are those that the frame lists, in order.
pub proof fn the_ports_are_those_listed(v: serde_json::Value, r: Vec<u16>, a: Seq<frame::Json>, i: int)
    requires
        call_ensures(worker_ports, (&v,), r),
    ensures
        frame::json(v).member("ports"@) !is Array ==> r@.len() == 0,
        frame::json(v).member("ports"@) == frame::Json::Array(a) && (forall|k: int|
            0 <= k < a.len() ==> (#[trigger] a[k]) is Number && a[k]->Number_0 is Some
                && a[k]->Number_0->0 < 0x1_0000) ==> r@.len() == a.len() && (0 <= i < a.len() ==> r@[i]
            == a[i]->Number_0->0),
{
    if frame::json(v).member("ports"@) == frame::Json::Array(a) && (forall|k: int|
        0 <= k < a.len() ==> (#[trigger] a[k]) is Number && a[k]->Number_0 is Some
            && a[k]->Number_0->0 < 0x1_0000) {
        ports_of_numbers(a);
        if 0 <= i < a.len() {
            assert(a[i] is Number);
        }
    }
}

proof fn only_routes(c: Seq<String>)
    ensures
        forall|k: int|
            0 <= k < overlay_links::route_ceiling(c).len() ==> is_route_of(
                c,
                #[trigger] overlay_links::route_ceiling(c)[k],
            ),
    decreases c.len(),
{
    if c.len() > 0 {
        let d = c.drop_last();
        only_routes(d);
        let was = overlay_links::route_ceiling(d);
        let now = overlay_links::route_ceiling(c);
        assert forall|k: int| 0 <= k < now.len() implies is_route_of(c, #[trigger] now[k]) by {
            if k < was.len() {
                assert(now[k] == was[k]);
                assert(is_route_of(d, was[k]));
                let i = choose|i: int| 0 <= i < d.len() && (#[trigger] d[i])@ == "route:"@ + was[k];
                assert(c[i] == d[i]);
            } else {
                let n = c.len() - 1;
                let front = "route:"@.len() as int;
                assert(c[n]@ =~= c[n]@.subrange(0, front) + c[n]@.subrange(front, c[n]@.len() as int));
                assert(c[n]@ == "route:"@ + now[k]);
            }
        }
    }
}

/// This is a route that one of the grants is for.
pub open spec fn is_route_of(c: Seq<String>, t: Seq<char>) -> bool {
    exists|i: int| 0 <= i < c.len() && (#[trigger] c[i])@ == "route:"@ + t
}

/// No route may be offered that was not granted.
pub proof fn only_a_granted_route_may_be_offered(c: Vec<String>, r: Vec<String>, k: int)
    requires
        call_ensures(ceiling_routes, (&c,), r),
        0 <= k < r@.len(),
    ensures
        is_route_of(c@, r@[k]@),
{
    only_routes(c@);
    assert(frame::views(r@)[k] == r@[k]@);
}

} // verus!
