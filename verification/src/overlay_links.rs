//! What peers say of the overlay network: their addresses, their routes, their tunnel keys,
//! and that they leave it.

use vstd::prelude::*;
use vstd::string::*;
use crate::frame;
use crate::frame::{as_count, elements, member, object, of_count, of_text, put};
use crate::hexadecimal;
use crate::hexadecimal::decode_exact;
use crate::offer;
use crate::offer::{count_member, text_member};
use crate::streams;
use crate::text;
use crate::text::{same, strip_prefix};

verus! {

/// Where an announced address stands.
#[derive(Clone, Copy, Debug, PartialEq, Eq, Structural)]
pub enum Stage {
    /// Does it prove itself on this link?
    Verify,
    /// Is it newer than what this key announced before?
    Sequence,
    /// Does its key match the certificate we hold of the peer?
    Pinned,
    /// Do we hold an identity of the peer that is not settled?
    Provisional,
    /// Does that identity have the announced key?
    Promote,
    /// Could it be settled?
    Settle,
    /// May this link carry the route?
    Route,
    /// Install the route.
    Install,
    /// Stop here; `forget` the identity that is not settled.
    Stop { forget: bool },
}

/// What comes after a stage, `yes` being its answer. The sequence is looked at only once the
/// announcement has proved itself, so that one that does not cannot spoil it; and nothing is
/// settled before the key was compared with the certificate we hold.
pub open spec fn next_stage(s: Stage, yes: bool) -> Stage {
    match s {
        Stage::Verify => if yes {
            Stage::Sequence
        } else {
            Stage::Stop { forget: false }
        },
        Stage::Sequence => if yes {
            Stage::Pinned
        } else {
            Stage::Stop { forget: false }
        },
        Stage::Pinned => if yes {
            Stage::Provisional
        } else {
            Stage::Stop { forget: true }
        },
        Stage::Provisional => if yes {
            Stage::Promote
        } else {
            Stage::Route
        },
        Stage::Promote => if yes {
            Stage::Settle
        } else {
            Stage::Stop { forget: true }
        },
        Stage::Settle => if yes {
            Stage::Route
        } else {
            Stage::Stop { forget: true }
        },
        Stage::Route => if yes {
            Stage::Install
        } else {
            Stage::Stop { forget: false }
        },
        Stage::Install => Stage::Install,
        Stage::Stop { forget } => Stage::Stop { forget },
    }
}

/// What comes after a stage.
pub fn advance(s: Stage, yes: bool) -> (r: Stage)
    ensures
        r == next_stage(s, yes),
{
    match s {
        Stage::Verify => if yes {
            Stage::Sequence
        } else {
            Stage::Stop { forget: false }
        },
        Stage::Sequence => if yes {
            Stage::Pinned
        } else {
            Stage::Stop { forget: false }
        },
        Stage::Pinned => if yes {
            Stage::Provisional
        } else {
            Stage::Stop { forget: true }
        },
        Stage::Provisional => if yes {
            Stage::Promote
        } else {
            Stage::Route
        },
        Stage::Promote => if yes {
            Stage::Settle
        } else {
            Stage::Stop { forget: true }
        },
        Stage::Settle => if yes {
            Stage::Route
        } else {
            Stage::Stop { forget: true }
        },
        Stage::Route => if yes {
            Stage::Install
        } else {
            Stage::Stop { forget: false }
        },
        Stage::Install => Stage::Install,
        Stage::Stop { forget } => Stage::Stop { forget },
    }
}

/// The answers to all the stages.
pub struct Answers {
    pub verified: bool,
    pub fresh: bool,
    pub pinned_ok: bool,
    pub provisional: bool,
    pub promotes: bool,
    pub settles: bool,
    pub routable: bool,
}

/// The answer to a stage.
pub open spec fn answer_to(a: Answers, s: Stage) -> bool {
    match s {
        Stage::Verify => a.verified,
        Stage::Sequence => a.fresh,
        Stage::Pinned => a.pinned_ok,
        Stage::Provisional => a.provisional,
        Stage::Promote => a.promotes,
        Stage::Settle => a.settles,
        Stage::Route => a.routable,
        _ => true,
    }
}

/// Where an announcement ends up after at most `n` stages.
pub open spec fn run(a: Answers, s: Stage, n: nat) -> Stage
    decreases n,
{
    if n == 0 {
        s
    } else {
        run(a, next_stage(s, answer_to(a, s)), (n - 1) as nat)
    }
}

/// A route is installed exactly where the announcement proved itself, was fresh, agreed with
/// the certificate we hold and, if an identity was to be settled, with that; and where the
/// link may carry it. An announcement that did not prove itself is stopped at once.
pub proof fn route_is_earned(a: Answers)
    ensures
        run(a, Stage::Verify, 7) is Install <==> a.verified && a.fresh && a.pinned_ok && (
        a.provisional ==> a.promotes && a.settles) && a.routable,
        run(a, Stage::Verify, 7) is Install || run(a, Stage::Verify, 7) is Stop,
        !a.verified ==> run(a, Stage::Verify, 1) == (Stage::Stop { forget: false }),
{
    reveal_with_fuel(run, 8);
}

/// Whether an announcement is looked at: not from a peer whose fleet identity is pending, for
/// being present must not buy a route. It is then kept, to be looked at again when the link is
/// fit for it.
pub fn hears_announce(have_overlay: bool, identity_pending: bool) -> (r: bool)
    ensures
        r == (have_overlay && !identity_pending),
{
    have_overlay && !identity_pending
}

/// Whether an announcement that came before its link was fit is taken once it is: it proves
/// itself, the link may carry the route, and it is still newer than what its key announced
/// since. The sequence is looked at last.
pub fn takes_replay(verified: bool, routable: bool, fresh: bool) -> (r: bool)
    ensures
        r == (verified && routable && fresh),
{
    verified && routable && fresh
}

/// The networks that a device's ceiling lets it carry.
pub open spec fn route_ceiling(ceiling: Seq<String>) -> Seq<Seq<char>>
    decreases ceiling.len(),
{
    if ceiling.len() == 0 {
        Seq::empty()
    } else {
        let c = ceiling.last()@;
        let rest = route_ceiling(ceiling.drop_last());
        if text::begins(c, "route:"@) {
            rest.push(c.subrange("route:"@.len() as int, c.len() as int))
        } else {
            rest
        }
    }
}

/// The networks that a device's ceiling lets it carry.
pub fn ceiling_routes(ceiling: &Vec<String>) -> (r: Vec<String>)
    ensures
        frame::views(r@) == route_ceiling(ceiling@),
{
    let mut out: Vec<String> = Vec::new();
    let mut i: usize = 0;
    proof {
        assert(ceiling@.subrange(0, 0) =~= Seq::<String>::empty());
        assert(frame::views(out@) =~= route_ceiling(ceiling@.subrange(0, 0)));
    }
    while i < ceiling.len()
        invariant
            i <= ceiling@.len(),
            frame::views(out@) == route_ceiling(ceiling@.subrange(0, i as int)),
        decreases ceiling.len() - i,
    {
        let ghost before = frame::views(out@);
        proof {
            let upto = ceiling@.subrange(0, i + 1);
            assert(upto.drop_last() =~= ceiling@.subrange(0, i as int));
            assert(upto.last() == ceiling@[i as int]);
        }
        if let Some(net) = strip_prefix(ceiling[i].as_str(), "route:") {
            out.push(net.to_owned());
            proof {
                assert(frame::views(out@) =~= before.push(net@));
            }
        }
        i += 1;
    }
    proof {
        assert(ceiling@.subrange(0, ceiling@.len() as int) =~= ceiling@);
    }
    out
}

/// The advertised networks that are carried: those granted, where routes are accepted at all.
pub open spec fn carried(advertised: Seq<String>, granted: Seq<bool>, accept: bool) -> Seq<String>
    decreases advertised.len(),
{
    if advertised.len() == 0 {
        advertised
    } else {
        let rest = carried(advertised.drop_last(), granted, accept);
        if accept && granted[advertised.len() - 1] {
            rest.push(advertised.last())
        } else {
            rest
        }
    }
}

/// The routes to install for a peer, in full: what it no longer advertises, or is no longer
/// granted, is not among them, and none at all is an answer too. `granted` says of each
/// advertised network whether the owner lets the peer carry it.
pub fn installable_routes(advertised: &Vec<String>, granted: &Vec<bool>, accept: bool) -> (r: Vec<
    String,
>)
    requires
        granted@.len() == advertised@.len(),
    ensures
        r@ == carried(advertised@, granted@, accept),
{
    let mut out: Vec<String> = Vec::new();
    let mut i: usize = 0;
    proof {
        assert(advertised@.subrange(0, 0) =~= Seq::<String>::empty());
    }
    while i < advertised.len()
        invariant
            i <= advertised@.len(),
            granted@.len() == advertised@.len(),
            out@ == carried(advertised@.subrange(0, i as int), granted@, accept),
        decreases advertised.len() - i,
    {
        proof {
            let upto = advertised@.subrange(0, i + 1);
            assert(upto.drop_last() =~= advertised@.subrange(0, i as int));
            assert(upto.last() == advertised@[i as int]);
        }
        if accept && granted[i] {
            out.push(advertised[i].clone());
        }
        i += 1;
    }
    proof {
        assert(advertised@.subrange(0, advertised@.len() as int) =~= advertised@);
    }
    out
}

/// A machine that accepts no routes installs none, whatever is advertised and granted; and an
/// advertisement that was withdrawn leaves none.
pub proof fn nothing_is_carried_unasked(advertised: Seq<String>, granted: Seq<bool>)
    ensures
        carried(advertised, granted, false).len() == 0,
        carried(Seq::empty(), granted, true).len() == 0,
    decreases advertised.len(),
{
    if advertised.len() > 0 {
        nothing_is_carried_unasked(advertised.drop_last(), granted);
    }
}

/// What to do about a peer's tunnel key.
pub enum TunnelStep {
    /// Tunnels are off.
    Off,
    /// It cannot be used now.
    Ignore,
    /// Set up the tunnel.
    Adopt { pubkey: String, port: u16 },
}

/// What to do about a peer's tunnel key: it is used if it names a key and a port, and the
/// addresses on both networks are known.
pub fn tunnel_key(
    v: &serde_json::Value,
    enabled: bool,
    usable: bool,
    underlay: bool,
    overlay: bool,
) -> (r: TunnelStep)
    ensures
        ({
            let j = frame::json(*v);
            let key = offer::text_or(j, "pubkey"@, Seq::empty());
            let port = streams::low16(offer::count_or_zero(j, "port"@));
            &&& r is Off <==> !(enabled && usable)
            &&& r is Adopt <==> enabled && usable && underlay && overlay && key.len() > 0 && port != 0
            &&& r matches TunnelStep::Adopt { pubkey, port: p } ==> pubkey@ == key && p == port
        }),
{
    if !enabled || !usable {
        return TunnelStep::Off;
    }
    let pubkey = text_member(v, "pubkey", "");
    proof {
        reveal_strlit("");
        assert(""@ =~= Seq::<char>::empty());
    }
    let port: u16 = (count_member(v, "port") % 0x1_0000) as u16;
    if underlay && overlay && !pubkey.as_str().is_empty() && port != 0 {
        TunnelStep::Adopt { pubkey, port }
    } else {
        TunnelStep::Ignore
    }
}

/// The frame that tells a peer our tunnel key.
pub open spec fn key_json(pubkey: Seq<char>, port: u16) -> frame::Json {
    frame::empty_object().with("type"@, frame::Json::Text("wg-key"@)).with(
        "pubkey"@,
        frame::Json::Text(pubkey),
    ).with("port"@, frame::Json::Number(Some(port as u64)))
}

/// The frame that tells a peer our tunnel key.
pub fn key_frame(pubkey: &str, port: u16) -> (r: serde_json::Value)
    ensures
        frame::json(r) == key_json(pubkey@, port),
{
    let mut f = object();
    put(&mut f, "type", of_text("wg-key"));
    put(&mut f, "pubkey", of_text(pubkey));
    put(&mut f, "port", of_count(port as u64));
    f
}

/// A tunnel key is read as it was told: the same key, and the same port.
pub proof fn key_is_read_as_told(pubkey: Seq<char>, port: u16)
    ensures
        offer::text_or(key_json(pubkey, port), "pubkey"@, Seq::empty()) == pubkey,
        streams::low16(offer::count_or_zero(key_json(pubkey, port), "port"@)) == port,
{
    broadcast use frame::with_sets_one_member;

    reveal_strlit("type");
    reveal_strlit("pubkey");
    reveal_strlit("port");
    assert("type"@.len() == 4 && "pubkey"@.len() == 6 && "port"@.len() == 4);
    assert("type"@[0] == 't' && "port"@[0] == 'p');
}

/// A device's notice that it leaves.
pub struct Depart {
    pub device_pub: Vec<u8>,
    pub msg: String,
    pub sig: Vec<u8>,
}

/// A text is this many bytes in hexadecimal.
pub open spec fn is_bytes(s: Seq<char>, n: int) -> bool {
    hexadecimal::is_hex(s) && s.len() / 2 == n
}

/// Read a device's notice that it leaves: a key of 32 bytes and a signature of 64.
pub fn parse_depart(v: &serde_json::Value) -> (r: Option<Depart>)
    ensures
        ({
            let j = frame::json(*v);
            let key = offer::text_or(j, "device_pub"@, Seq::empty());
            let sig = offer::text_or(j, "sig"@, Seq::empty());
            &&& r is Some <==> is_bytes(key, 32) && is_bytes(sig, 64)
            &&& r matches Some(d) ==> d.device_pub@ == hexadecimal::hex_bytes(key) && d.sig@
                == hexadecimal::hex_bytes(sig) && d.msg@ == offer::text_or(j, "msg"@, Seq::empty())
        }),
{
    let key = text_member(v, "device_pub", "");
    let sig = text_member(v, "sig", "");
    let msg = text_member(v, "msg", "");
    proof {
        reveal_strlit("");
        assert(""@ =~= Seq::<char>::empty());
    }
    match (decode_exact(key.as_str(), 32), decode_exact(sig.as_str(), 64)) {
        (Some(device_pub), Some(sig)) => Some(Depart { device_pub, msg, sig }),
        _ => None,
    }
}

/// The frame that tells a device that its place is free.
pub open spec fn departed_json(name: Seq<char>) -> frame::Json {
    frame::empty_object().with("type"@, frame::Json::Text("depart-ack"@)).with(
        "name"@,
        frame::Json::Text(name),
    )
}

/// The frame that tells a device that its place is free.
pub fn departed_frame(name: &str) -> (r: serde_json::Value)
    ensures
        frame::json(r) == departed_json(name@),
{
    let mut f = object();
    put(&mut f, "type", of_text("depart-ack"));
    put(&mut f, "name", of_text(name));
    f
}

/// The numbers among some values, cut to ports, in order.
pub open spec fn ports_in(a: Seq<frame::Json>) -> Seq<u16>
    decreases a.len(),
{
    if a.len() == 0 {
        Seq::empty()
    } else {
        match a.last().count() {
            Some(n) => ports_in(a.drop_last()).push(streams::low16(n)),
            None => ports_in(a.drop_last()),
        }
    }
}

/// The ports that a peer names for its workers.
pub open spec fn ports_of(v: frame::Json) -> Seq<u16> {
    match v.member("ports"@) {
        frame::Json::Array(a) => ports_in(a),
        _ => Seq::empty(),
    }
}

/// The ports that a peer names for its workers.
pub fn worker_ports(v: &serde_json::Value) -> (r: Vec<u16>)
    ensures
        r@ == ports_of(frame::json(*v)),
{
    let mut out: Vec<u16> = Vec::new();
    let ports = member(v, "ports");
    if let Some(a) = elements(ports) {
        let ghost all = frame::json(*ports)->Array_0;
        let mut i: usize = 0;
        proof {
            assert(all.subrange(0, 0) =~= Seq::<frame::Json>::empty());
        }
        while i < a.len()
            invariant
                i <= a@.len(),
                a@.len() == all.len(),
                forall|k: int| 0 <= k < a@.len() ==> frame::json(#[trigger] a@[k]) == all[k],
                out@ == ports_in(all.subrange(0, i as int)),
            decreases a.len() - i,
        {
            proof {
                let upto = all.subrange(0, i + 1);
                assert(upto.drop_last() =~= all.subrange(0, i as int));
                assert(upto.last() == frame::json(a@[i as int]));
            }
            if let Some(n) = as_count(&a[i]) {
                out.push((n % 0x1_0000) as u16);
            }
            i += 1;
        }
        proof {
            assert(all.subrange(0, all.len() as int) =~= all);
        }
    }
    out
}

/// A challenge for our identity.
pub struct Challenge {
    pub nonce: Vec<u8>,
    pub receiver: Vec<u8>,
}

/// The challenge that a frame carries: a nonce and the challenger's key, of 32 bytes each.
pub open spec fn carries_challenge(j: frame::Json, r: Option<Challenge>) -> bool {
    let nonce = offer::text_or(j, "nonce"@, Seq::empty());
    let key = offer::text_or(j, "receiver_device_pub"@, Seq::empty());
    &&& r is Some <==> is_bytes(nonce, 32) && is_bytes(key, 32)
    &&& r matches Some(c) ==> c.nonce@ == hexadecimal::hex_bytes(nonce) && c.receiver@
        == hexadecimal::hex_bytes(key)
}

/// Read a challenge for our identity.
pub fn parse_challenge(v: &serde_json::Value) -> (r: Option<Challenge>)
    ensures
        carries_challenge(frame::json(*v), r),
{
    let nonce = text_member(v, "nonce", "");
    let key = text_member(v, "receiver_device_pub", "");
    proof {
        reveal_strlit("");
        assert(""@ =~= Seq::<char>::empty());
    }
    match (decode_exact(nonce.as_str(), 32), decode_exact(key.as_str(), 32)) {
        (Some(nonce), Some(receiver)) => Some(Challenge { nonce, receiver }),
        _ => None,
    }
}

/// A challenge that we wrote is read back as it was written.
pub proof fn challenge_round_trip(nonce: Seq<u8>, own: Seq<u8>)
    requires
        nonce.len() == 32,
        own.len() == 32,
    ensures
        ({
            let j = crate::pairing::challenge_json(nonce, own);
            let n = offer::text_or(j, "nonce"@, Seq::empty());
            let k = offer::text_or(j, "receiver_device_pub"@, Seq::empty());
            is_bytes(n, 32) && is_bytes(k, 32) && hexadecimal::hex_bytes(n) == nonce
                && hexadecimal::hex_bytes(k) == own
        }),
{
    broadcast use frame::with_sets_one_member;

    reveal_strlit("nonce");
    reveal_strlit("receiver_device_pub");
    assert("nonce"@.len() == 5 && "receiver_device_pub"@.len() == 19);
    hexadecimal::hex_round_trip(nonce);
    hexadecimal::hex_round_trip(own);
}

} // verus!
