//! Links to devices of the same owner: what each has proved, what waits for proof, and
//! what is forgotten with a link.

use vstd::prelude::*;
use vstd::string::*;
use crate::frame;
use crate::frame::{of_flag, put, text_at};
use crate::hexadecimal;
use crate::hexadecimal::decode_exact;
use crate::keyed::Keyed;
use crate::shared_defs;
use crate::shared_defs::after;
use crate::text;
use crate::text::{before, same};

verus! {

/// The shortest challenge that is taken from a peer.
pub const MIN_NONCE: usize = 16;

/// An offer that waits for its sender to prove itself.
pub struct Deferred {
    pub pid: String,
    pub offer: serde_json::Value,
    /// Until when it waits.
    pub deadline: u64,
}

/// What is known of the links to devices of the same owner.
pub struct FleetLinks {
    /// Peers whose proof is awaited.
    pub pending: Keyed<()>,
    /// Peers that have proved themselves.
    pub verified: Keyed<()>,
    /// Peers that have our own proof.
    pub greeted: Keyed<()>,
    /// Offers that wait for their senders to prove themselves.
    pub deferred: Vec<Deferred>,
    /// The challenge that we put to each peer.
    pub bind_ours: Keyed<Vec<u8>>,
    /// The challenge that each peer has put to us.
    pub bind_theirs: Keyed<Vec<u8>>,
}

/// What came of checking a peer's proof.
#[derive(Clone, Copy, Debug, PartialEq, Eq, Structural)]
pub enum HelloVerdict {
    /// There is nothing to check it against.
    Unbound,
    /// It does not hold, or its device is revoked.
    Refused,
    /// It holds.
    Verified,
}

/// What to do about a peer's proof.
pub enum HelloStep {
    /// Nothing.
    Ignore,
    /// Drop the link.
    Drop,
    /// Let the peer in. `fresh` where it had not proved itself before; `greet` where it does
    /// not have our proof yet; the offers that waited are to be looked at.
    Welcome { fresh: bool, greet: bool, replay: Vec<Deferred> },
}

/// An offer is picked out: that of a peer, or, without one, those whose time is past.
pub open spec fn picked(d: Deferred, pid: Option<Seq<char>>, now: u64) -> bool {
    match pid {
        Some(p) => d.pid@ == p,
        None => now > d.deadline,
    }
}

/// The offers that are picked out, in order.
pub open spec fn picks(s: Seq<Deferred>, pid: Option<Seq<char>>, now: u64) -> Seq<Deferred>
    decreases s.len(),
{
    if s.len() == 0 {
        s
    } else if picked(s.last(), pid, now) {
        picks(s.drop_last(), pid, now).push(s.last())
    } else {
        picks(s.drop_last(), pid, now)
    }
}

/// The offers that are not picked out, in order.
pub open spec fn leaves(s: Seq<Deferred>, pid: Option<Seq<char>>, now: u64) -> Seq<Deferred>
    decreases s.len(),
{
    if s.len() == 0 {
        s
    } else if picked(s.last(), pid, now) {
        leaves(s.drop_last(), pid, now)
    } else {
        leaves(s.drop_last(), pid, now).push(s.last())
    }
}

/// Every offer is either picked out or left, and those left were not picked.
pub proof fn nothing_is_lost(s: Seq<Deferred>, pid: Option<Seq<char>>, now: u64)
    ensures
        picks(s, pid, now).len() + leaves(s, pid, now).len() == s.len(),
        forall|i: int|
            0 <= i < picks(s, pid, now).len() ==> picked(#[trigger] picks(s, pid, now)[i], pid, now),
        forall|i: int|
            0 <= i < leaves(s, pid, now).len() ==> !picked(
                #[trigger] leaves(s, pid, now)[i],
                pid,
                now,
            ),
        forall|d: Deferred|
            s.contains(d) ==> picks(s, pid, now).contains(d) || leaves(s, pid, now).contains(d),
        forall|i: int| 0 <= i < picks(s, pid, now).len() ==> s.contains(#[trigger] picks(s, pid, now)[i]),
        forall|i: int| 0 <= i < leaves(s, pid, now).len() ==> s.contains(#[trigger] leaves(s, pid, now)[i]),
    decreases s.len(),
{
    if s.len() > 0 {
        let r = s.drop_last();
        nothing_is_lost(r, pid, now);
        let (p, l) = (picks(s, pid, now), leaves(s, pid, now));
        let (pr, lr) = (picks(r, pid, now), leaves(r, pid, now));
        assert forall|d: Deferred| s.contains(d) implies p.contains(d) || l.contains(d) by {
            let i = choose|i: int| 0 <= i < s.len() && s[i] == d;
            if i == s.len() - 1 {
                if picked(d, pid, now) {
                    assert(p[p.len() - 1] == d);
                } else {
                    assert(l[l.len() - 1] == d);
                }
            } else {
                assert(r[i] == d);
                assert(r.contains(d));
                if pr.contains(d) {
                    let j = choose|j: int| 0 <= j < pr.len() && pr[j] == d;
                    assert(p[j] == d);
                } else {
                    let j = choose|j: int| 0 <= j < lr.len() && lr[j] == d;
                    assert(l[j] == d);
                }
            }
        }
        assert forall|i: int| 0 <= i < p.len() implies s.contains(#[trigger] p[i]) && picked(
            p[i],
            pid,
            now,
        ) by {
            if i < pr.len() {
                assert(p[i] == pr[i] && r.contains(pr[i]));
                let k = choose|k: int| 0 <= k < r.len() && r[k] == pr[i];
                assert(s[k] == p[i]);
            } else {
                assert(s[s.len() - 1] == p[i]);
            }
        }
        assert forall|i: int| 0 <= i < l.len() implies s.contains(#[trigger] l[i]) && !picked(
            l[i],
            pid,
            now,
        ) by {
            if i < lr.len() {
                assert(l[i] == lr[i] && r.contains(lr[i]));
                let k = choose|k: int| 0 <= k < r.len() && r[k] == lr[i];
                assert(s[k] == l[i]);
            } else {
                assert(s[s.len() - 1] == l[i]);
            }
        }
    }
}

/// Every offer is a frame with members.
pub open spec fn frames(s: Seq<Deferred>) -> bool {
    forall|i: int| 0 <= i < s.len() ==> frame::json((#[trigger] s[i]).offer) is Object
}

fn split(list: &mut Vec<Deferred>, pid: Option<&str>, now: u64) -> (out: Vec<Deferred>)
    requires
        frames(old(list)@),
    ensures
        out@ == picks(old(list)@, shared_defs::view_of_str(pid), now),
        final(list)@ == leaves(old(list)@, shared_defs::view_of_str(pid), now),
        frames(out@),
        frames(final(list)@),
{
    let ghost was = list@;
    let ghost who = shared_defs::view_of_str(pid);
    let n: usize = list.len();
    let mut out: Vec<Deferred> = Vec::new();
    let mut keep: Vec<Deferred> = Vec::new();
    let mut i: usize = 0;
    proof {
        assert(was.subrange(0, 0) =~= Seq::<Deferred>::empty());
        assert(was.subrange(0, n as int) =~= was);
    }
    while i < n
        invariant
            i <= n,
            n == was.len(),
            who == shared_defs::view_of_str(pid),
            list@ == was.subrange(i as int, n as int),
            out@ == picks(was.subrange(0, i as int), who, now),
            keep@ == leaves(was.subrange(0, i as int), who, now),
        decreases n - i,
    {
        let ghost upto = was.subrange(0, i + 1);
        let d = list.remove(0);
        proof {
            assert(d == was[i as int]);
            assert(list@ =~= was.subrange(i + 1, n as int));
            assert(upto.drop_last() =~= was.subrange(0, i as int));
            assert(upto.last() == d);
        }
        let hit: bool = match pid {
            Some(p) => same(d.pid.as_str(), p),
            None => now > d.deadline,
        };
        if hit {
            out.push(d);
        } else {
            keep.push(d);
        }
        i += 1;
    }
    proof {
        assert(was.subrange(0, n as int) =~= was);
        nothing_is_lost(was, who, now);
        assert(frames(out@)) by {
            assert forall|i: int| 0 <= i < out@.len() implies frame::json((#[trigger] out@[i]).offer)
                is Object by {
                assert(was.contains(picks(was, who, now)[i]));
            }
        }
        assert(frames(keep@)) by {
            assert forall|i: int| 0 <= i < keep@.len() implies frame::json(
                (#[trigger] keep@[i]).offer,
            ) is Object by {
                assert(was.contains(leaves(was, who, now)[i]));
            }
        }
    }
    *list = keep;
    out
}

impl FleetLinks {
    pub open spec fn wf(self) -> bool {
        &&& self.pending.wf()
        &&& self.verified.wf()
        &&& self.greeted.wf()
        &&& self.bind_ours.wf()
        &&& self.bind_theirs.wf()
        &&& frames(self.deferred@)
    }

    /// Nothing is known of `p`.
    pub open spec fn knows_nothing_of(self, p: Seq<char>) -> bool {
        &&& !self.pending@.contains_key(p)
        &&& !self.verified@.contains_key(p)
        &&& !self.greeted@.contains_key(p)
        &&& !self.bind_ours@.contains_key(p)
        &&& !self.bind_theirs@.contains_key(p)
        &&& forall|i: int| 0 <= i < self.deferred@.len() ==> (#[trigger] self.deferred@[i]).pid@ != p
    }

    /// No links.
    pub fn new() -> (r: FleetLinks)
        ensures
            r.wf(),
            forall|p: Seq<char>| #[trigger] r.knows_nothing_of(p),
    {
        FleetLinks {
            pending: Keyed::new(),
            verified: Keyed::new(),
            greeted: Keyed::new(),
            deferred: Vec::new(),
            bind_ours: Keyed::new(),
            bind_theirs: Keyed::new(),
        }
    }

    /// A device of the same owner is present. Its proof is awaited, unless it has given it.
    pub fn appeared(&mut self, pid: &str)
        requires
            old(self).wf(),
        ensures
            final(self).wf(),
            final(self).pending@ == (if pid@.len() > 0 && !old(self).verified@.contains_key(pid@) {
                old(self).pending@.insert(pid@, ())
            } else {
                old(self).pending@
            }),
            final(self).verified == old(self).verified,
            final(self).greeted == old(self).greeted,
            final(self).deferred == old(self).deferred,
            final(self).bind_ours == old(self).bind_ours,
            final(self).bind_theirs == old(self).bind_theirs,
    {
        if !pid.is_empty() && !self.verified.contains(pid) {
            self.pending.insert(pid, ());
        }
    }

    /// A link has come up. Tells whether our proof is due to the peer: we are in a fleet,
    /// the peer has not proved itself, and its proof is awaited or its link looks like one
    /// of the fleet's. Its proof is then awaited.
    pub fn link_up(&mut self, pid: &str, in_fleet: bool, shaped: bool) -> (r: bool)
        requires
            old(self).wf(),
        ensures
            final(self).wf(),
            r == (!old(self).verified@.contains_key(pid@) && in_fleet && (
            old(self).pending@.contains_key(pid@) || shaped)),
            final(self).pending@ == (if r {
                old(self).pending@.insert(pid@, ())
            } else {
                old(self).pending@
            }),
            final(self).verified == old(self).verified,
            final(self).greeted == old(self).greeted,
            final(self).deferred == old(self).deferred,
            final(self).bind_ours == old(self).bind_ours,
            final(self).bind_theirs == old(self).bind_theirs,
    {
        let due: bool = !self.verified.contains(pid) && in_fleet && (self.pending.contains(pid)
            || shaped);
        if due {
            self.pending.insert(pid, ());
        }
        due
    }

    /// Our proof went out to a peer. Tells whether it had none before.
    pub fn greet(&mut self, pid: &str) -> (r: bool)
        requires
            old(self).wf(),
        ensures
            final(self).wf(),
            r == !old(self).greeted@.contains_key(pid@),
            final(self).greeted@ == old(self).greeted@.insert(pid@, ()),
            final(self).pending == old(self).pending,
            final(self).verified == old(self).verified,
            final(self).deferred == old(self).deferred,
            final(self).bind_ours == old(self).bind_ours,
            final(self).bind_theirs == old(self).bind_theirs,
    {
        let fresh: bool = !self.greeted.contains(pid);
        self.greeted.insert(pid, ());
        fresh
    }

    /// The challenge to put to a peer over a link that binds nothing by itself. There is one
    /// for each link: the first, which `fresh` becomes, is sent again each time.
    pub fn our_nonce(&mut self, pid: &str, fresh: Vec<u8>) -> (r: Vec<u8>)
        requires
            old(self).wf(),
        ensures
            final(self).wf(),
            old(self).bind_ours@.contains_key(pid@) ==> r@ == old(self).bind_ours@[pid@]@
                && final(self).bind_ours@ == old(self).bind_ours@,
            !old(self).bind_ours@.contains_key(pid@) ==> r@ == fresh@
                && final(self).bind_ours@.contains_key(pid@) && final(self).bind_ours@[pid@]@
                == fresh@ && final(self).bind_ours@.remove(pid@) == old(self).bind_ours@,
            final(self).pending == old(self).pending,
            final(self).verified == old(self).verified,
            final(self).greeted == old(self).greeted,
            final(self).deferred == old(self).deferred,
            final(self).bind_theirs == old(self).bind_theirs,
    {
        if let Some(n) = self.bind_ours.get(pid) {
            return n.clone();
        }
        let copy = fresh.clone();
        proof {
            assert(copy@ =~= fresh@);
        }
        self.bind_ours.insert(pid, fresh);
        proof {
            assert(self.bind_ours@.remove(pid@) =~= old(self).bind_ours@);
        }
        copy
    }

    /// A peer puts a challenge to us. Tells whether it is taken: a short or unreadable one
    /// is not, for it would weaken our own protection.
    pub fn their_nonce(&mut self, pid: &str, nonce: Option<Vec<u8>>) -> (r: bool)
        requires
            old(self).wf(),
        ensures
            final(self).wf(),
            r == (nonce is Some && nonce->0@.len() >= MIN_NONCE),
            final(self).bind_theirs@ == (if r {
                old(self).bind_theirs@.insert(pid@, nonce->0)
            } else {
                old(self).bind_theirs@
            }),
            final(self).pending == old(self).pending,
            final(self).verified == old(self).verified,
            final(self).greeted == old(self).greeted,
            final(self).deferred == old(self).deferred,
            final(self).bind_ours == old(self).bind_ours,
    {
        match nonce {
            Some(n) => {
                if n.len() >= MIN_NONCE {
                    self.bind_theirs.insert(pid, n);
                    true
                } else {
                    false
                }
            },
            None => false,
        }
    }

    /// A peer has given its proof, and it was checked. A peer that fails is dropped with the
    /// offers that waited for it; for one that succeeds they are looked at.
    pub fn hello(&mut self, pid: &str, verdict: HelloVerdict) -> (r: HelloStep)
        requires
            old(self).wf(),
        ensures
            final(self).wf(),
            final(self).bind_ours == old(self).bind_ours,
            final(self).bind_theirs == old(self).bind_theirs,
            verdict is Unbound ==> r is Ignore && *final(self) == *old(self),
            verdict is Refused ==> r is Drop && final(self).pending@ == old(self).pending@.remove(pid@)
                && final(self).verified == old(self).verified && final(self).greeted
                == old(self).greeted && final(self).deferred@ == leaves(
                old(self).deferred@,
                Some(pid@),
                0,
            ),
            verdict is Verified ==> (r matches HelloStep::Welcome { fresh, greet, replay } && fresh
                == !old(self).verified@.contains_key(pid@) && greet
                == !old(self).greeted@.contains_key(pid@) && replay@ == picks(
                old(self).deferred@,
                Some(pid@),
                0,
            )) && final(self).pending == old(self).pending && final(self).verified@
                == old(self).verified@.insert(pid@, ()) && final(self).greeted@
                == old(self).greeted@.insert(pid@, ()) && final(self).deferred@ == leaves(
                old(self).deferred@,
                Some(pid@),
                0,
            ),
    {
        match verdict {
            HelloVerdict::Unbound => HelloStep::Ignore,
            HelloVerdict::Refused => {
                let _ = self.pending.remove(pid);
                let _ = split(&mut self.deferred, Some(pid), 0);
                HelloStep::Drop
            },
            HelloVerdict::Verified => {
                let fresh: bool = !self.verified.contains(pid);
                self.verified.insert(pid, ());
                let replay = split(&mut self.deferred, Some(pid), 0);
                let greet: bool = self.greet(pid);
                HelloStep::Welcome { fresh, greet, replay }
            },
        }
    }

    /// Let an offer wait for its sender to prove itself, for `grace` at most.
    pub fn defer(&mut self, pid: &str, v: serde_json::Value, now: u64, grace: u64)
        requires
            old(self).wf(),
            frame::json(v) is Object,
        ensures
            final(self).wf(),
            final(self).deferred@.len() == old(self).deferred@.len() + 1,
            final(self).deferred@.drop_last() == old(self).deferred@,
            final(self).deferred@.last().pid@ == pid@,
            final(self).deferred@.last().offer == v,
            final(self).deferred@.last().deadline == shared_defs::later(now, grace),
            final(self).pending == old(self).pending,
            final(self).verified == old(self).verified,
            final(self).greeted == old(self).greeted,
            final(self).bind_ours == old(self).bind_ours,
            final(self).bind_theirs == old(self).bind_theirs,
    {
        let ghost was = self.deferred@;
        self.deferred.push(
            Deferred { pid: pid.to_owned(), offer: v, deadline: after(now, grace) },
        );
        proof {
            assert(self.deferred@.drop_last() =~= was);
        }
    }

    /// The offers that have waited long enough. They are marked, so that they are decided on
    /// and wait no second time.
    pub fn overdue(&mut self, now: u64) -> (r: Vec<Deferred>)
        requires
            old(self).wf(),
        ensures
            final(self).wf(),
            final(self).deferred@ == leaves(old(self).deferred@, None, now),
            r@.len() == picks(old(self).deferred@, None, now).len(),
            forall|i: int|
                0 <= i < r@.len() ==> waited(
                    picks(old(self).deferred@, None, now)[i],
                    #[trigger] r@[i],
                ),
            final(self).pending == old(self).pending,
            final(self).verified == old(self).verified,
            final(self).greeted == old(self).greeted,
            final(self).bind_ours == old(self).bind_ours,
            final(self).bind_theirs == old(self).bind_theirs,
    {
        let mut due = split(&mut self.deferred, None, now);
        let ghost orig = due@;
        let mut out: Vec<Deferred> = Vec::new();
        let n: usize = due.len();
        let mut i: usize = 0;
        proof {
            assert(orig.subrange(0, n as int) =~= orig);
        }
        while i < n
            invariant
                i <= n,
                n == orig.len(),
                frames(orig),
                due@ == orig.subrange(i as int, n as int),
                out@.len() == i,
                forall|k: int| 0 <= k < i ==> waited(orig[k], #[trigger] out@[k]),
            decreases n - i,
        {
            let d = due.remove(0);
            proof {
                assert(d == orig[i as int]);
                assert(due@ =~= orig.subrange(i + 1, n as int));
            }
            let mut offer = d.offer;
            put(&mut offer, "__fleet_waited", of_flag(true));
            out.push(Deferred { pid: d.pid, offer, deadline: d.deadline });
            i += 1;
        }
        out
    }

    /// A link is gone, and with it everything that its peer has shown on it: a new link must
    /// prove itself anew.
    pub fn drop_link(&mut self, pid: &str)
        requires
            old(self).wf(),
        ensures
            final(self).wf(),
            final(self).knows_nothing_of(pid@),
            final(self).pending@ == old(self).pending@.remove(pid@),
            final(self).verified@ == old(self).verified@.remove(pid@),
            final(self).greeted@ == old(self).greeted@.remove(pid@),
            final(self).deferred@ == leaves(old(self).deferred@, Some(pid@), 0),
            final(self).bind_ours@ == old(self).bind_ours@.remove(pid@),
            final(self).bind_theirs@ == old(self).bind_theirs@.remove(pid@),
    {
        proof {
            nothing_is_lost(self.deferred@, Some(pid@), 0);
        }
        let _ = self.pending.remove(pid);
        let _ = self.verified.remove(pid);
        let _ = self.greeted.remove(pid);
        let _ = split(&mut self.deferred, Some(pid), 0);
        let _ = self.bind_ours.remove(pid);
        let _ = self.bind_theirs.remove(pid);
    }

    /// The secret of a meeting place that a peer tells us of. Only a peer that has proved
    /// itself is listened to, and only a secret of 32 bytes is one.
    pub fn rendezvous(&self, pid: &str, v: &serde_json::Value) -> (r: Option<String>)
        ensures
            r is Some <==> self.verified@.contains_key(pid@) && (match frame::json(*v).text_at(
                "secret"@,
            ) {
                Some(s) => hexadecimal::is_hex(s) && s.len() / 2 == 32,
                None => false,
            }),
            r matches Some(s) ==> frame::json(*v).text_at("secret"@) == Some(s@),
    {
        if !self.verified.contains(pid) {
            return None;
        }
        match text_at(v, "secret") {
            Some(s) => match decode_exact(s, 32) {
                Some(_) => Some(s.to_owned()),
                None => None,
            },
            None => None,
        }
    }
}

/// What a device that proved itself is called: the name that we have for its key, or else the
/// one it claims. Only the first counts for what it may do; without it the device is put on
/// record, which the second part of the answer tells.
pub fn device_name(proven: Option<&str>, claimed: &str) -> (r: (String, bool))
    ensures
        r.0@ == (match proven {
            Some(n) => n@,
            None => claimed@,
        }),
        r.1 == (proven is None),
{
    match proven {
        Some(n) => (n.to_owned(), false),
        None => (claimed.to_owned(), true),
    }
}

/// An offer that has waited: the same, but for the mark.
pub open spec fn waited(was: Deferred, now: Deferred) -> bool {
    &&& now.pid == was.pid
    &&& now.deadline == was.deadline
    &&& frame::json(now.offer) == frame::json(was.offer).with(
        "__fleet_waited"@,
        frame::Json::Bool(true),
    )
}

/// Whether it is on us to dial a device of the same owner: on the one of the two whose id
/// sorts first.
pub fn dials(my_id: &str, pid: &str) -> (r: bool)
    ensures
        r == text::precedes(my_id@, pid@),
{
    before(my_id, pid)
}

/// Of two devices that see each other exactly one dials.
pub proof fn exactly_one_dials(a: Seq<char>, b: Seq<char>)
    requires
        a != b,
    ensures
        text::precedes(a, b) != text::precedes(b, a),
{
    text::precedes_is_strict_and_total(a, b);
}

} // verus!
