//! Peers that appear on the channels we watch: whose channel it is, who dials, and when a peer
//! has to prove which device it is.

use vstd::prelude::*;
use vstd::string::*;
use crate::fleet_links::dials;
use crate::frame;
use crate::frame::{object, of_flag, of_text, put, text_at};
use crate::keyed;
use crate::offer;
use crate::offer::text_member;
use crate::text;
use crate::text::{cat3, same};

verus! {

/// The channels that we watch.
pub struct Watched {
    /// One for each device that we share a secret with.
    pub devices: Vec<String>,
    /// Meeting places that a verified device told us of.
    pub brokered: Vec<String>,
    /// That of the fleet.
    pub fleet: Option<String>,
    /// That of devices that want to enroll.
    pub enroll: Option<String>,
}

/// What a peer is by the channel that it appeared on.
#[derive(Clone, Copy, Debug, PartialEq, Eq, Structural)]
pub enum Route {
    /// One of our own.
    Own,
    /// The device at this place of the list: dial it with the secret that we share.
    Device(usize),
    /// The one party that a meeting place was made for: dial it with its secret.
    Brokered(usize),
    /// A device of the fleet. It counts as unproved where `mark`; it is on us to dial it
    /// where `dial`.
    Fleet { mark: bool, dial: bool },
    /// A device that wants to enroll.
    Enroll,
    /// Nobody that we know of.
    Stranger,
}

/// `i` is where the first channel called `c` is.
pub open spec fn is_first(v: Seq<String>, c: Seq<char>, i: int) -> bool {
    &&& 0 <= i < v.len()
    &&& v[i]@ == c
    &&& forall|j: int| 0 <= j < i ==> (#[trigger] v[j])@ != c
}

fn find(v: &Vec<String>, c: &str) -> (r: Option<usize>)
    ensures
        r is Some <==> keyed::listed(v@, c@),
        r matches Some(i) ==> is_first(v@, c@, i as int),
{
    let mut i: usize = 0;
    while i < v.len()
        invariant
            i <= v@.len(),
            forall|j: int| 0 <= j < i ==> (#[trigger] v@[j])@ != c@,
        decreases v.len() - i,
    {
        if same(v[i].as_str(), c) {
            return Some(i);
        }
        i += 1;
    }
    None
}

/// The channel that a peer appeared on.
pub open spec fn channel_in(v: frame::Json) -> Seq<char> {
    offer::text_or(v, "channel"@, Seq::empty())
}

/// The id of a peer that appeared.
pub open spec fn id_in(v: frame::Json) -> Seq<char> {
    offer::text_or(v, "id"@, Seq::empty())
}

/// An optional text is this one.
pub open spec fn is_text(o: Option<String>, t: Seq<char>) -> bool {
    o matches Some(s) && s@ == t
}

fn is_same(o: &Option<String>, t: &str) -> (r: bool)
    ensures
        r == is_text(*o, t@),
{
    match o {
        Some(s) => same(s.as_str(), t),
        None => false,
    }
}

/// What a peer is that appeared: a device that we share a secret with before all else, then the
/// party of a meeting place, then a device of the fleet, then one that wants to enroll. A
/// party without an id is nobody.
pub fn route(v: &serde_json::Value, own: bool, w: &Watched, my_id: &str, verified: bool) -> (r: Route)
    ensures
        ({
            let (c, pid) = (channel_in(frame::json(*v)), id_in(frame::json(*v)));
            if own {
                r is Own
            } else if keyed::listed(w.devices@, c) {
                r matches Route::Device(i) && is_first(w.devices@, c, i as int)
            } else if keyed::listed(w.brokered@, c) {
                if pid.len() == 0 {
                    r is Stranger
                } else {
                    r matches Route::Brokered(i) && is_first(w.brokered@, c, i as int)
                }
            } else if is_text(w.fleet, c) {
                r == (Route::Fleet {
                    mark: pid.len() > 0 && !verified,
                    dial: text::precedes(my_id@, pid),
                })
            } else if is_text(w.enroll, c) {
                r is Enroll
            } else {
                r is Stranger
            }
        }),
{
    if own {
        return Route::Own;
    }
    let c = text_member(v, "channel", "");
    let pid = text_member(v, "id", "");
    proof {
        reveal_strlit("");
        assert(""@ =~= Seq::<char>::empty());
    }
    match find(&w.devices, c.as_str()) {
        Some(i) => {
            return Route::Device(i);
        },
        None => {},
    }
    let nameless: bool = pid.as_str().unicode_len() == 0;
    match find(&w.brokered, c.as_str()) {
        Some(i) => {
            if nameless {
                return Route::Stranger;
            }
            return Route::Brokered(i);
        },
        None => {},
    }
    if is_same(&w.fleet, c.as_str()) {
        return Route::Fleet { mark: !nameless && !verified, dial: dials(my_id, pid.as_str()) };
    }
    if is_same(&w.enroll, c.as_str()) {
        return Route::Enroll;
    }
    Route::Stranger
}

/// Whether to say that a device appeared. The server tells of a device again and again; only
/// one that is neither linked nor being dialled, or whose link is dead, is news.
pub fn is_news(linked: bool, dialling: bool, link_dead: bool) -> (r: bool)
    ensures
        r == ((!linked && !dialling) || link_dead),
{
    (!linked && !dialling) || link_dead
}

/// The line about a device that appeared.
pub fn appeared_line(name: &str) -> (r: String)
    ensures
        r@ == "known device '"@ + name@ + "' appeared, connecting"@,
{
    cat3("known device '", name, "' appeared, connecting")
}

/// What is known of which device a peer is.
#[derive(Clone, Copy, Debug, PartialEq, Eq, Structural)]
pub struct Identity {
    /// Which device it says to be.
    pub known: bool,
    /// It has proved it.
    pub proven: bool,
}

/// How a direct link goes on once it is up.
#[derive(Clone, Copy, Debug, PartialEq, Eq, Structural)]
pub struct DirectUp {
    /// Ask the peer to prove which device it is.
    pub challenge: bool,
    /// Nothing goes over the link before it did, or its time is up.
    pub hold: bool,
}

/// How a direct link goes on once it is up. Where capabilities decide, a device that is known
/// has to prove itself first. Where they do not, a peer that came by a code is asked who it
/// is, so that a device that was revoked is found out; the link does not wait for it.
pub fn direct_up(authoritative: bool, code_path: bool, id: &Identity) -> (r: DirectUp)
    ensures
        r.challenge == if authoritative {
            id.known && !id.proven
        } else {
            code_path && !id.known
        },
        r.hold == (r.challenge && authoritative),
{
    let challenge: bool = if authoritative {
        id.known && !id.proven
    } else {
        code_path && !id.known
    };
    DirectUp { challenge, hold: challenge && authoritative }
}

/// Whether a peer that came by a code is asked who it is: once it has proved that it knows the
/// code, for before that it does not answer, and while it is not known.
pub fn code_challenge(code_path: bool, pake_done: bool, id: &Identity) -> (r: bool)
    ensures
        r == (code_path && pake_done && !id.proven && !id.known),
{
    code_path && pake_done && !id.proven && !id.known
}

/// Whether a request that depends on who the peer is has to wait: capabilities decide, the
/// peer was asked to prove itself and has not done so yet.
pub fn waits_for_proof(authoritative: bool, asked: bool, proven: bool) -> (r: bool)
    ensures
        r == (authoritative && asked && !proven),
{
    authoritative && asked && !proven
}

/// The frame that tells a peer whether terminals are served.
pub open spec fn caps_json(shell: bool) -> frame::Json {
    frame::empty_object().with("type"@, frame::Json::Text("caps"@)).with(
        "shell"@,
        frame::Json::Bool(shell),
    )
}

/// The frame that tells a peer whether terminals are served.
pub fn caps_frame(shell: bool) -> (r: serde_json::Value)
    ensures
        frame::json(r) == caps_json(shell),
{
    let mut f = object();
    put(&mut f, "type", of_text("caps"));
    put(&mut f, "shell", of_flag(shell));
    f
}

/// The frame that hands a device the secret of a meeting place.
pub open spec fn rendezvous_json(secret: Seq<char>) -> frame::Json {
    frame::empty_object().with("type"@, frame::Json::Text("fleet-rendezvous"@)).with(
        "secret"@,
        frame::Json::Text(secret),
    )
}

/// The frame that hands a device the secret of a meeting place.
pub fn rendezvous_frame(secret: &str) -> (r: serde_json::Value)
    ensures
        frame::json(r) == rendezvous_json(secret@),
{
    let mut f = object();
    put(&mut f, "type", of_text("fleet-rendezvous"));
    put(&mut f, "secret", of_text(secret));
    f
}

/// The secret of a meeting place arrives as it was handed out: what the receiving device reads
/// from the frame is what the one that asked was told.
pub proof fn both_meet_in_one_place(secret: Seq<char>)
    ensures
        rendezvous_json(secret).text_at("secret"@) == Some(secret),
        rendezvous_json(secret).text_at("type"@) == Some("fleet-rendezvous"@),
{
    broadcast use frame::with_sets_one_member;

    reveal_strlit("type");
    reveal_strlit("secret");
    assert("type"@.len() == 4 && "secret"@.len() == 6);
}

/// The answer to a sibling that asked for a meeting place with `name`: `sent` tells whether the
/// secret was handed to that device, where a link to it is there.
pub fn brokered_answer(name: &str, sent: Option<bool>, secret: &str) -> (r: Result<
    serde_json::Value,
    String,
>)
    ensures
        r is Ok <==> sent == Some(true),
        r matches Ok(v) ==> frame::json(v) == frame::empty_object().with(
            "ok"@,
            frame::Json::Bool(true),
        ).with("secret"@, frame::Json::Text(secret@)),
        r matches Err(e) ==> e@ == if sent is None {
            "no verified link to '"@ + name@ + "'"@
        } else {
            "could not reach that peer over the warm link"@
        },
{
    match sent {
        None => Err(cat3("no verified link to '", name, "'")),
        Some(true) => {
            let mut f = object();
            put(&mut f, "ok", of_flag(true));
            put(&mut f, "secret", of_text(secret));
            Ok(f)
        },
        Some(false) => Err("could not reach that peer over the warm link".to_owned()),
    }
}

} // verus!
