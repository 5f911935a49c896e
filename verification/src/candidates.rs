//! Which peer holds the code: a bounded number of candidates run a ceremony each, and the
//! first to finish it is the sender.

use vstd::prelude::*;
use vstd::string::*;
use crate::frame;
use crate::frame::{count_at, flag_at, member, text_list};
use crate::keyed;
use crate::keyed::Keyed;
use crate::offer::optional_text;
use crate::shared_defs;
use crate::shared_defs::after;

verus! {

/// How many ceremonies run at a time.
pub const MAX_CANDIDATES: usize = 8;

/// How a peer says it can be reached directly.
pub struct DirectOffer {
    pub addrs: Vec<String>,
    pub srflx: Option<String>,
    pub server_public: Option<String>,
    pub proto: u8,
}

/// The peers that may hold the code. A peer is a candidate while its ceremony runs.
pub struct Candidates {
    /// A candidate has finished its ceremony: the sender is settled.
    pub settled: bool,
    /// When each candidate must have finished.
    pub deadlines: Keyed<u64>,
    /// File offers that came before their sender had finished.
    pub offers: Keyed<serde_json::Value>,
    /// Direct offers that came before anybody had finished.
    pub direct: Keyed<DirectOffer>,
    /// When somebody must have finished.
    pub overall: Option<u64>,
    /// The peers whose ceremonies ran out of time: their messages begin no second one.
    pub dropped: Keyed<()>,
}

/// What to do about a peer that may be the sender.
#[derive(Clone, Copy, Debug, PartialEq, Eq, Structural)]
pub enum Admission {
    /// The sender is settled: nothing.
    Settled,
    /// There are as many candidates as may be: nothing.
    Full,
    /// Its ceremony ran out of time: nothing.
    Dropped,
    /// It is a candidate already.
    Known,
    /// It has become one: start its ceremony.
    New,
}

/// What came of a ceremony's message.
#[derive(Clone, Copy, Debug, PartialEq, Eq, Structural)]
pub enum Inbound {
    /// The ceremony is finished.
    Finished,
    /// The ceremony has failed.
    Failed,
    /// It goes on.
    Running,
}

/// What to do after a ceremony's message.
pub enum Progress {
    /// This peer is the sender. What it offered before is to be looked at now.
    Sender { direct: Option<DirectOffer>, offer: Option<serde_json::Value> },
    /// This candidate is out.
    Dropped,
    /// Wait.
    Wait,
}

impl Candidates {
    /// No more candidates than may be, none of them out of time, offers from candidates alone, and
    /// none of either once the sender is settled.
    pub open spec fn wf(self) -> bool {
        &&& self.deadlines.wf()
        &&& self.offers.wf()
        &&& self.direct.wf()
        &&& self.dropped.wf()
        &&& forall|p: Seq<char>| #[trigger]
            self.dropped@.contains_key(p) ==> !self.deadlines@.contains_key(p)
        &&& self.deadlines@.dom().finite()
        &&& self.deadlines@.dom().len() <= MAX_CANDIDATES
        &&& forall|p: Seq<char>| #[trigger]
            self.offers@.contains_key(p) ==> self.deadlines@.contains_key(p)
        &&& self.settled ==> self.deadlines@ == Map::<Seq<char>, u64>::empty()
    }

    /// `p` runs a ceremony.
    pub open spec fn runs(self, p: Seq<char>) -> bool {
        self.deadlines@.contains_key(p)
    }

    /// Without a code there is nobody to find.
    pub fn new(code_given: bool) -> (r: Candidates)
        ensures
            r.wf(),
            r.settled == !code_given,
            r.deadlines@ == Map::<Seq<char>, u64>::empty(),
            r.offers@ == Map::<Seq<char>, serde_json::Value>::empty(),
            r.direct@ == Map::<Seq<char>, DirectOffer>::empty(),
            r.overall is None,
            r.dropped@ == Map::<Seq<char>, ()>::empty(),
    {
        proof {
            assert(Map::<Seq<char>, u64>::empty().dom() =~= Set::empty());
        }
        Candidates {
            settled: !code_given,
            deadlines: Keyed::new(),
            offers: Keyed::new(),
            direct: Keyed::new(),
            overall: None,
            dropped: Keyed::new(),
        }
    }

    /// A peer's link has come up, where `up`, or else it has sent a message of its ceremony. It
    /// becomes a candidate if there is room, with `budget` to finish; the first one starts the
    /// overall clock. A peer that ran out of time becomes one again only when its link comes up.
    pub fn enter(&mut self, pid: &str, now: u64, budget: u64, up: bool) -> (r: Admission)
        requires
            old(self).wf(),
        ensures
            final(self).wf(),
            r is Settled <==> old(self).settled,
            r is Known <==> !old(self).settled && old(self).runs(pid@),
            r is Dropped <==> !old(self).settled && !up && old(self).dropped@.contains_key(pid@),
            r is Full <==> !old(self).settled && !old(self).runs(pid@) && (up || !old(
                self,
            ).dropped@.contains_key(pid@)) && old(self).deadlines@.dom().len() >= MAX_CANDIDATES,
            final(self).dropped@ == (if r is New {
                old(self).dropped@.remove(pid@)
            } else {
                old(self).dropped@
            }),
            final(self).settled == old(self).settled,
            final(self).offers == old(self).offers,
            final(self).direct == old(self).direct,
            final(self).deadlines@ == (if r is New {
                old(self).deadlines@.insert(pid@, shared_defs::later(now, budget))
            } else {
                old(self).deadlines@
            }),
            final(self).overall == (if (r is New || r is Known) && old(self).overall is None {
                Some(shared_defs::later(now, budget))
            } else {
                old(self).overall
            }),
    {
        if self.settled {
            return Admission::Settled;
        }
        if !up && self.dropped.contains(pid) {
            return Admission::Dropped;
        }
        let dl: u64 = after(now, budget);
        if self.deadlines.contains(pid) {
            if self.overall.is_none() {
                self.overall = Some(dl);
            }
            return Admission::Known;
        }
        if self.deadlines.len() >= MAX_CANDIDATES {
            return Admission::Full;
        }
        self.deadlines.insert(pid, dl);
        let _ = self.dropped.remove(pid);
        if self.overall.is_none() {
            self.overall = Some(dl);
        }
        Admission::New
    }

    /// Keep a file offer from a candidate until its ceremony is over. Tells whether it was
    /// kept: an offer from anybody else is not.
    pub fn buffer_offer(&mut self, pid: &str, v: serde_json::Value) -> (r: bool)
        requires
            old(self).wf(),
        ensures
            final(self).wf(),
            r == (!old(self).settled && old(self).runs(pid@)),
            final(self).offers@ == (if r {
                old(self).offers@.insert(pid@, v)
            } else {
                old(self).offers@
            }),
            final(self).settled == old(self).settled,
            final(self).deadlines == old(self).deadlines,
            final(self).direct == old(self).direct,
            final(self).overall == old(self).overall,
            final(self).dropped == old(self).dropped,
    {
        if !self.settled && self.deadlines.contains(pid) {
            self.offers.insert(pid, v);
            true
        } else {
            false
        }
    }

    /// A direct offer has come. It is kept while nobody has finished; afterwards it is
    /// handed back, to be looked at.
    pub fn buffer_direct(&mut self, pid: &str, o: DirectOffer) -> (r: Option<DirectOffer>)
        requires
            old(self).wf(),
        ensures
            final(self).wf(),
            old(self).settled ==> r == Some(o) && final(self).direct@ == old(self).direct@,
            !old(self).settled ==> r is None && final(self).direct@ == old(self).direct@.insert(
                pid@,
                o,
            ),
            final(self).settled == old(self).settled,
            final(self).deadlines == old(self).deadlines,
            final(self).offers == old(self).offers,
            final(self).overall == old(self).overall,
            final(self).dropped == old(self).dropped,
    {
        if self.settled {
            return Some(o);
        }
        self.direct.insert(pid, o);
        None
    }

    /// A message of a candidate's ceremony was taken in. The first candidate to finish is
    /// the sender, and all others are out; one that fails is out alone.
    pub fn advance(&mut self, pid: &str, inbound: Inbound) -> (r: Progress)
        requires
            old(self).wf(),
            !old(self).settled,
            old(self).runs(pid@),
        ensures
            final(self).wf(),
            final(self).overall == old(self).overall,
            inbound is Finished ==> {
                &&& r matches Progress::Sender { direct, offer }
                &&& direct == lookup(old(self).direct@, pid@)
                &&& offer == lookup(old(self).offers@, pid@)
                &&& final(self).settled
                &&& final(self).offers@ == Map::<Seq<char>, serde_json::Value>::empty()
                &&& final(self).direct@ == Map::<Seq<char>, DirectOffer>::empty()
                &&& final(self).dropped == old(self).dropped
            },
            inbound is Failed ==> {
                &&& r is Dropped
                &&& !final(self).settled
                &&& final(self).deadlines@ == old(self).deadlines@.remove(pid@)
                &&& final(self).offers@ == old(self).offers@.remove(pid@)
                &&& final(self).direct@ == old(self).direct@.remove(pid@)
                &&& final(self).dropped == old(self).dropped
            },
            inbound is Running ==> r is Wait && *final(self) == *old(self),
    {
        match inbound {
            Inbound::Running => Progress::Wait,
            Inbound::Failed => {
                proof {
                    vstd::set::axiom_set_remove_len(self.deadlines@.dom(), pid@);
                    assert(self.deadlines@.remove(pid@).dom() =~= self.deadlines@.dom().remove(pid@));
                }
                let _ = self.deadlines.remove(pid);
                let _ = self.offers.remove(pid);
                let _ = self.direct.remove(pid);
                Progress::Dropped
            },
            Inbound::Finished => {
                let offer = self.offers.remove(pid);
                let direct = self.direct.remove(pid);
                self.settled = true;
                self.deadlines = Keyed::new();
                self.offers = Keyed::new();
                self.direct = Keyed::new();
                Progress::Sender { direct, offer }
            },
        }
    }

    /// Candidates that have run out of time are out, one by one; the others go on.
    pub fn expire(&mut self, now: u64) -> (gone: Vec<String>)
        requires
            old(self).wf(),
        ensures
            final(self).wf(),
            final(self).settled == old(self).settled,
            final(self).direct == old(self).direct,
            final(self).overall == old(self).overall,
            final(self).deadlines@ == keyed::not_past(old(self).deadlines@, now),
            forall|p: Seq<char>| #[trigger]
                keyed::listed(gone@, p) <==> old(self).runs(p) && now > old(self).deadlines@[p],
            final(self).offers@ == old(self).offers@.remove_keys(expired(old(self).deadlines@, now)),
            final(self).dropped@.dom() == old(self).dropped@.dom().union(
                expired(old(self).deadlines@, now),
            ),
    {
        let ghost was = *self;
        let gone = self.deadlines.expire(now);
        proof {
            assert(was.offers@.remove_keys(upto(gone@, 0)) =~= was.offers@);
            assert(was.dropped@.dom().union(upto(gone@, 0)) =~= was.dropped@.dom());
        }
        let mut i: usize = 0;
        while i < gone.len()
            invariant
                i <= gone@.len(),
                self.offers.wf(),
                self.offers@ == was.offers@.remove_keys(upto(gone@, i as int)),
                self.dropped.wf(),
                self.dropped@.dom() == was.dropped@.dom().union(upto(gone@, i as int)),
                self.settled == was.settled,
                self.direct == was.direct,
                self.overall == was.overall,
                self.direct.wf(),
                self.deadlines.wf(),
                self.deadlines@ == keyed::not_past(was.deadlines@, now),
            decreases gone.len() - i,
        {
            let _ = self.offers.remove(gone[i].as_str());
            self.dropped.insert(gone[i].as_str(), ());
            proof {
                assert(upto(gone@, i + 1) =~= upto(gone@, i as int).insert(gone@[i as int]@));
                assert(self.dropped@.dom() =~= was.dropped@.dom().union(upto(gone@, i + 1)));
                assert(self.offers@ =~= was.offers@.remove_keys(upto(gone@, i + 1)));
            }
            i += 1;
        }
        proof {
            let all = upto(gone@, gone@.len() as int);
            assert forall|p: Seq<char>| #[trigger] all.contains(p) == expired(
                was.deadlines@,
                now,
            ).contains(p) by {
                assert(keyed::listed(gone@, p) == (was.runs(p) && now > was.deadlines@[p]));
            }
            assert(all =~= expired(was.deadlines@, now));
            let (a, b) = (was.deadlines@.dom(), self.deadlines@.dom());
            assert(b.subset_of(a));
            vstd::set_lib::lemma_len_subset(b, a);
            assert forall|p: Seq<char>| #[trigger] self.offers@.contains_key(p) implies self.runs(
                p,
            ) by {
                assert(was.offers@.contains_key(p) && !expired(was.deadlines@, now).contains(p));
            }
            if self.settled {
                assert(self.deadlines@ =~= Map::<Seq<char>, u64>::empty());
            }
            assert forall|p: Seq<char>| #[trigger] self.dropped@.contains_key(p) implies !self.runs(
                p,
            ) by {
                assert(was.dropped@.dom().contains(p) || all.contains(p));
                if was.dropped@.dom().contains(p) {
                    assert(was.dropped@.contains_key(p));
                }
            }
        }
        gone
    }

    /// Whether everybody has run out of time: nobody has finished, and the overall clock,
    /// which the first candidate started, has run down.
    pub fn timed_out(&self, now: u64) -> (r: bool)
        ensures
            r == (!self.settled && self.overall is Some && now > self.overall->0),
    {
        if self.settled {
            return false;
        }
        match self.overall {
            Some(dl) => now > dl,
            None => false,
        }
    }
}

/// The direct offer that a frame describes. A peer that does not name its protocol speaks
/// the first one, and none is above what fits a byte.
pub open spec fn describes_direct(v: frame::Json, o: DirectOffer) -> bool {
    &&& frame::views(o.addrs@) == frame::texts_of(v.member("addrs"@))
    &&& shared_defs::view_of(o.srflx) == v.text_at("srflx"@)
    &&& shared_defs::view_of(o.server_public) == v.text_at("server_public"@)
    &&& o.proto == (match v.count_at("proto"@) {
        None => 1,
        Some(n) => if n < 1 {
            1
        } else if n > 255 {
            255
        } else {
            n as int
        },
    })
}

/// Read a direct offer.
pub fn parse_direct(data: &serde_json::Value) -> (r: DirectOffer)
    ensures
        describes_direct(frame::json(*data), r),
{
    let proto: u8 = match count_at(data, "proto") {
        None => 1,
        Some(n) => if n < 1 {
            1
        } else if n > 255 {
            255
        } else {
            n as u8
        },
    };
    DirectOffer {
        addrs: text_list(member(data, "addrs")),
        srflx: optional_text(data, "srflx"),
        server_public: optional_text(data, "server_public"),
        proto,
    }
}

/// Whether a direct offer asks for a probe of the path.
pub fn asks_probe(data: &serde_json::Value) -> (r: bool)
    ensures
        r == (frame::json(*data).flag_at("probe"@) == Some(true)),
{
    match flag_at(data, "probe") {
        Some(b) => b,
        None => false,
    }
}

/// What a map has under `k`, if anything.
pub open spec fn lookup<V>(m: Map<Seq<char>, V>, k: Seq<char>) -> Option<V> {
    if m.contains_key(k) {
        Some(m[k])
    } else {
        None
    }
}

/// The candidates that have run out of time.
pub open spec fn expired(m: Map<Seq<char>, u64>, now: u64) -> Set<Seq<char>> {
    Set::new(|p: Seq<char>| m.contains_key(p) && now > m[p])
}

/// The first `n` of some texts.
spec fn upto(v: Seq<String>, n: int) -> Set<Seq<char>> {
    Set::new(|p: Seq<char>| exists|i: int| 0 <= i < n && i < v.len() && (#[trigger] v[i])@ == p)
}

/// What is said where nobody finished in time.
pub fn timed_out_message() -> (r: String)
    ensures
        r@
            == "the other device uses an older version and can't send securely over a code. Update it (or this CLI) so the transfer runs the encrypted handshake. Nothing was received."@,
{
    "the other device uses an older version and can't send securely over a code. Update it (or this CLI) so the transfer runs the encrypted handshake. Nothing was received.".to_owned()
}

/// However crowded the room, no more than `MAX_CANDIDATES` ceremonies run at a time, and
/// once the sender is settled none does.
pub proof fn candidates_are_bounded(c: Candidates)
    requires
        c.wf(),
    ensures
        c.deadlines@.dom().len() <= MAX_CANDIDATES,
        c.settled ==> forall|p: Seq<char>| !c.runs(p),
        c.offers@.dom().subset_of(c.deadlines@.dom()),
{
}

} // verus!
