//! Requests for a capability that wait for the owner's consent.

use vstd::prelude::*;
use vstd::string::*;
use crate::shared_defs::MAX_PENDING;
use crate::text;
use crate::text::{cat3, cat5, same, to_decimal};

verus! {

/// A device's request for a capability.
pub struct PendingRequest {
    pub id: u64,
    pub peer: String,
    pub capability: String,
    /// When it was made, in seconds.
    pub timestamp: u64,
    /// "pending", "approved", "denied" or "expired".
    pub status: String,
    pub granted_at: Option<u64>,
}

/// A request is undecided.
pub open spec fn is_pending(r: PendingRequest) -> bool {
    r.status@ == "pending"@
}

/// How many requests are undecided.
pub open spec fn pending_count(s: Seq<PendingRequest>) -> nat
    decreases s.len(),
{
    if s.len() == 0 {
        0
    } else {
        pending_count(s.drop_last()) + (if is_pending(s.last()) {
            1nat
        } else {
            0
        })
    }
}

/// The request at `i` is the first that is undecided.
pub open spec fn first_pending(s: Seq<PendingRequest>, i: int) -> bool {
    0 <= i < s.len() && is_pending(s[i]) && forall|j: int| 0 <= j < i ==> !is_pending(#[trigger] s[j])
}

/// Where the first undecided request is.
pub open spec fn oldest(s: Seq<PendingRequest>) -> int {
    choose|i: int| first_pending(s, i)
}

/// The decided requests, in order.
pub open spec fn decided(s: Seq<PendingRequest>) -> Seq<PendingRequest>
    decreases s.len(),
{
    if s.len() == 0 {
        s
    } else if is_pending(s.last()) {
        decided(s.drop_last())
    } else {
        decided(s.drop_last()).push(s.last())
    }
}

/// The requests with room for one more: the oldest undecided ones give way.
pub open spec fn made_room(s: Seq<PendingRequest>) -> Seq<PendingRequest>
    decreases s.len(),
{
    if pending_count(s) >= MAX_PENDING && first_pending(s, oldest(s)) {
        made_room(s.remove(oldest(s)))
    } else {
        s
    }
}

/// The line about a request that gave way.
pub open spec fn evicted_line(r: PendingRequest) -> Seq<char> {
    "consent queue full (100), evicting oldest pending: id="@ + text::decimal(r.id as nat) + " peer="@
        + r.peer@ + " cap="@ + r.capability@
}

/// The lines about the requests that give way, in order.
pub open spec fn evicted_lines(s: Seq<PendingRequest>) -> Seq<Seq<char>>
    decreases s.len(),
{
    if pending_count(s) >= MAX_PENDING && first_pending(s, oldest(s)) {
        seq![evicted_line(s[oldest(s)])] + evicted_lines(s.remove(oldest(s)))
    } else {
        Seq::empty()
    }
}

proof fn count_some(s: Seq<PendingRequest>)
    ensures
        pending_count(s) <= s.len(),
        pending_count(s) == 0 <==> forall|j: int| 0 <= j < s.len() ==> !is_pending(#[trigger] s[j]),
    decreases s.len(),
{
    if s.len() > 0 {
        let r = s.drop_last();
        count_some(r);
        if pending_count(s) == 0 {
            assert forall|j: int| 0 <= j < s.len() implies !is_pending(#[trigger] s[j]) by {
                if j < r.len() {
                    assert(r[j] == s[j]);
                }
            }
        } else if forall|j: int| 0 <= j < s.len() ==> !is_pending(#[trigger] s[j]) {
            assert(!is_pending(s[s.len() - 1]));
            assert forall|j: int| 0 <= j < r.len() implies !is_pending(#[trigger] r[j]) by {
                assert(r[j] == s[j]);
            }
        }
    }
}

proof fn oldest_is(s: Seq<PendingRequest>, i: int)
    requires
        first_pending(s, i),
    ensures
        oldest(s) == i,
        first_pending(s, oldest(s)),
{
    let k = oldest(s);
    assert(first_pending(s, k));
    if k < i {
        assert(!is_pending(s[k]));
    } else if i < k {
        assert(!is_pending(s[i]));
    }
}

proof fn remove_one(s: Seq<PendingRequest>, i: int)
    requires
        0 <= i < s.len(),
        is_pending(s[i]),
    ensures
        pending_count(s.remove(i)) == pending_count(s) - 1,
        decided(s.remove(i)) == decided(s),
    decreases s.len(),
{
    let t = s.remove(i);
    if i == s.len() - 1 {
        assert(t =~= s.drop_last());
    } else {
        let r = s.drop_last();
        assert(r[i] == s[i]);
        remove_one(r, i);
        assert(t.drop_last() =~= r.remove(i));
        assert(t.last() == s.last());
    }
}

/// Making room leaves fewer undecided requests than there may be, and every decided one.
pub proof fn room_was_made(s: Seq<PendingRequest>)
    ensures
        pending_count(made_room(s)) < MAX_PENDING,
        decided(made_room(s)) == decided(s),
        made_room(s).len() <= s.len(),
        forall|i: int| 0 <= i < made_room(s).len() ==> s.contains(#[trigger] made_room(s)[i]),
    decreases s.len(),
{
    if pending_count(s) >= MAX_PENDING {
        count_some(s);
        let some = choose|j: int| 0 <= j < s.len() && is_pending(s[j]);
        first_exists(s, some);
        oldest_is(s, choose|i: int| first_pending(s, i));
        let i = oldest(s);
        remove_one(s, i);
        room_was_made(s.remove(i));
        let m = made_room(s);
        assert forall|k: int| 0 <= k < m.len() implies s.contains(#[trigger] m[k]) by {
            assert(s.remove(i).contains(m[k]));
            let x = choose|x: int| 0 <= x < s.remove(i).len() && s.remove(i)[x] == m[k];
            let y = if x < i {
                x
            } else {
                x + 1
            };
            assert(s[y] == m[k]);
        }
    }
}

proof fn first_exists(s: Seq<PendingRequest>, j: int)
    requires
        0 <= j < s.len(),
        is_pending(s[j]),
    ensures
        exists|i: int| first_pending(s, i),
    decreases j,
{
    if exists|k: int| 0 <= k < j && is_pending(#[trigger] s[k]) {
        let k = choose|k: int| 0 <= k < j && is_pending(#[trigger] s[k]);
        first_exists(s, k);
    } else {
        assert(first_pending(s, j));
    }
}

fn pending(r: &PendingRequest) -> (b: bool)
    ensures
        b == is_pending(*r),
{
    same(r.status.as_str(), "pending")
}

fn count(requests: &Vec<PendingRequest>) -> (n: usize)
    ensures
        n == pending_count(requests@),
{
    let mut n: usize = 0;
    let mut i: usize = 0;
    while i < requests.len()
        invariant
            i <= requests@.len(),
            n <= i,
            n == pending_count(requests@.subrange(0, i as int)),
        decreases requests.len() - i,
    {
        proof {
            let upto = requests@.subrange(0, i + 1);
            assert(upto.drop_last() =~= requests@.subrange(0, i as int));
            assert(upto.last() == requests@[i as int]);
        }
        if pending(&requests[i]) {
            n += 1;
        }
        i += 1;
    }
    proof {
        assert(requests@.subrange(0, requests@.len() as int) =~= requests@);
    }
    n
}

fn first(requests: &Vec<PendingRequest>) -> (r: Option<usize>)
    ensures
        r matches Some(i) ==> first_pending(requests@, i as int),
        r is None ==> forall|j: int| 0 <= j < requests@.len() ==> !is_pending(#[trigger] requests@[j]),
{
    let mut i: usize = 0;
    while i < requests.len()
        invariant
            i <= requests@.len(),
            forall|j: int| 0 <= j < i ==> !is_pending(#[trigger] requests@[j]),
        decreases requests.len() - i,
    {
        if pending(&requests[i]) {
            return Some(i);
        }
        i += 1;
    }
    None
}

fn say_evicted(r: &PendingRequest) -> (s: String)
    ensures
        s@ == evicted_line(*r),
{
    let id = to_decimal(r.id);
    let mut out = cat5(
        "consent queue full (100), evicting oldest pending: id=",
        id.as_str(),
        " peer=",
        r.peer.as_str(),
        " cap=",
    );
    out.append(r.capability.as_str());
    out
}

/// The highest id; zero where there is no request.
pub open spec fn top_id(s: Seq<PendingRequest>) -> u64
    decreases s.len(),
{
    if s.len() == 0 {
        0
    } else if s.last().id > top_id(s.drop_last()) {
        s.last().id
    } else {
        top_id(s.drop_last())
    }
}

/// No id is above the highest.
pub proof fn top_id_is_top(s: Seq<PendingRequest>)
    ensures
        forall|i: int| 0 <= i < s.len() ==> (#[trigger] s[i]).id <= top_id(s),
    decreases s.len(),
{
    if s.len() > 0 {
        let r = s.drop_last();
        top_id_is_top(r);
        assert forall|i: int| 0 <= i < s.len() implies (#[trigger] s[i]).id <= top_id(s) by {
            if i < r.len() {
                assert(r[i] == s[i]);
            }
        }
    }
}

fn highest(requests: &Vec<PendingRequest>) -> (n: u64)
    ensures
        n == top_id(requests@),
{
    let mut n: u64 = 0;
    let mut i: usize = 0;
    while i < requests.len()
        invariant
            i <= requests@.len(),
            n == top_id(requests@.subrange(0, i as int)),
        decreases requests.len() - i,
    {
        proof {
            let upto = requests@.subrange(0, i + 1);
            assert(upto.drop_last() =~= requests@.subrange(0, i as int));
            assert(upto.last() == requests@[i as int]);
        }
        if requests[i].id > n {
            n = requests[i].id;
        }
        i += 1;
    }
    proof {
        assert(requests@.subrange(0, requests@.len() as int) =~= requests@);
    }
    n
}

/// Add a request, made at `now`. Where as many are undecided as may be, the oldest give way,
/// and a line is returned for each.
pub fn add_pending_request(
    peer: &str,
    capability: &str,
    requests: &mut Vec<PendingRequest>,
    now: u64,
) -> (lines: Vec<String>)
    requires
        top_id(old(requests)@) < u64::MAX,
    ensures
        final(requests)@.len() == made_room(old(requests)@).len() + 1,
        final(requests)@.drop_last() == made_room(old(requests)@),
        final(requests)@.last().id == top_id(old(requests)@) + 1,
        final(requests)@.last().peer@ == peer@,
        final(requests)@.last().capability@ == capability@,
        final(requests)@.last().timestamp == now,
        is_pending(final(requests)@.last()),
        final(requests)@.last().granted_at is None,
        crate::frame::views(lines@) == evicted_lines(old(requests)@),
{
    let next: u64 = highest(requests) + 1;
    let ghost was = requests@;
    let mut lines: Vec<String> = Vec::new();
    proof {
        assert(crate::frame::views(lines@) =~= Seq::<Seq<char>>::empty());
        assert(Seq::<Seq<char>>::empty() + evicted_lines(was) =~= evicted_lines(was));
    }
    while count(requests) >= MAX_PENDING
        invariant
            made_room(requests@) == made_room(was),
            crate::frame::views(lines@) + evicted_lines(requests@) == evicted_lines(was),
        ensures
            requests@ == made_room(was),
            crate::frame::views(lines@) == evicted_lines(was),
        decreases requests.len(),
    {
        match first(requests) {
            Some(i) => {
                let line = say_evicted(&requests[i]);
                proof {
                    oldest_is(requests@, i as int);
                }
                let ghost before = requests@;
                let ghost said = crate::frame::views(lines@);
                requests.remove(i);
                lines.push(line);
                proof {
                    assert(crate::frame::views(lines@) =~= said.push(evicted_line(before[i as int])));
                    assert(said + (seq![evicted_line(before[i as int])] + evicted_lines(requests@))
                        =~= said.push(evicted_line(before[i as int])) + evicted_lines(requests@));
                }
            },
            None => {
                proof {
                    count_some(requests@);
                }
                break;
            },
        }
    }
    let ghost kept = requests@;
    requests.push(
        PendingRequest {
            id: next,
            peer: peer.to_owned(),
            capability: capability.to_owned(),
            timestamp: now,
            status: "pending".to_owned(),
            granted_at: None,
        },
    );
    proof {
        assert(requests@.drop_last() =~= kept);
    }
    lines
}

/// The queue stays bounded, its ids stay distinct, and no decided request is lost by adding
/// one.
pub proof fn queue_is_bounded(was: Seq<PendingRequest>, now: Seq<PendingRequest>)
    requires
        now.len() == made_room(was).len() + 1,
        now.drop_last() == made_room(was),
        now.last().id == top_id(was) + 1,
        is_pending(now.last()),
    ensures
        pending_count(now) <= MAX_PENDING,
        decided(now) == decided(was),
        forall|i: int| 0 <= i < now.len() - 1 ==> (#[trigger] now[i]).id < now.last().id,
{
    room_was_made(was);
    top_id_is_top(was);
    assert forall|i: int| 0 <= i < now.len() - 1 implies (#[trigger] now[i]).id < now.last().id by {
        let d = now.drop_last();
        assert(d[i] == now[i]);
        assert(was.contains(made_room(was)[i]));
        let k = choose|k: int| 0 <= k < was.len() && was[k] == made_room(was)[i];
        assert(was[k].id <= top_id(was));
    }
}

/// The program to tell of a new request, if one is set.
pub fn notify_hook(hook: Option<&str>) -> (r: Option<&str>)
    ensures
        r is Some <==> hook is Some && hook->0@.len() > 0,
        r matches Some(h) ==> h@ == hook->0@,
{
    match hook {
        Some(h) => if h.is_empty() {
            None
        } else {
            Some(h)
        },
        None => None,
    }
}

/// The undecided request with this id is at `i`, and is the first such.
pub open spec fn asked_at(s: Seq<PendingRequest>, id: u64, i: int) -> bool {
    &&& 0 <= i < s.len()
    &&& s[i].id == id
    &&& is_pending(s[i])
    &&& forall|j: int| 0 <= j < i ==> !((#[trigger] s[j]).id == id && is_pending(s[j]))
}

fn find(requests: &Vec<PendingRequest>, id: u64) -> (r: Option<usize>)
    ensures
        r matches Some(i) ==> asked_at(requests@, id, i as int),
        r is None ==> forall|i: int| !asked_at(requests@, id, i),
{
    let mut i: usize = 0;
    while i < requests.len()
        invariant
            i <= requests@.len(),
            forall|j: int| 0 <= j < i ==> !((#[trigger] requests@[j]).id == id && is_pending(requests@[j])),
        decreases requests.len() - i,
    {
        if requests[i].id == id && pending(&requests[i]) {
            return Some(i);
        }
        i += 1;
    }
    None
}

/// What is said of an id that has no undecided request.
pub open spec fn not_found(id: u64) -> Seq<char> {
    "request "@ + text::decimal(id as nat) + " not found or not pending"@
}

fn say_not_found(id: u64) -> (s: String)
    ensures
        s@ == not_found(id),
{
    let n = to_decimal(id);
    cat3("request ", n.as_str(), " not found or not pending")
}

/// Why a request is not approved: there is none undecided with this id, it is for another
/// capability, or the grant would have expired already.
pub open spec fn objection(s: Seq<PendingRequest>, id: u64, allow: Seq<char>, active: bool) -> Option<
    Seq<char>,
> {
    if !(exists|i: int| asked_at(s, id, i)) {
        Some(not_found(id))
    } else {
        let r = s[choose|i: int| asked_at(s, id, i)];
        if r.capability@ != allow {
            Some(
                "request "@ + text::decimal(id as nat) + " is for '"@ + r.capability@ + "', not '"@
                    + allow + "'"@,
            )
        } else if !active {
            Some("grant expiry must be in the future"@)
        } else {
            None
        }
    }
}

proof fn asked_once(s: Seq<PendingRequest>, id: u64, i: int, j: int)
    requires
        asked_at(s, id, i),
        asked_at(s, id, j),
    ensures
        i == j,
{
    if i < j {
        assert(!(s[i].id == id && is_pending(s[i])));
    } else if j < i {
        assert(!(s[j].id == id && is_pending(s[j])));
    }
}

/// Whether a request may be approved. `active` says that the grant has not expired.
pub fn judge_approval(requests: &Vec<PendingRequest>, id: u64, allow: &str, active: bool) -> (r: Result<
    usize,
    String,
>)
    ensures
        r is Ok <==> objection(requests@, id, allow@, active) is None,
        r matches Ok(i) ==> asked_at(requests@, id, i as int),
        r matches Err(e) ==> objection(requests@, id, allow@, active) == Some(e@),
{
    match find(requests, id) {
        None => Err(say_not_found(id)),
        Some(i) => {
            proof {
                asked_once(requests@, id, i as int, choose|j: int| asked_at(requests@, id, j));
            }
            if !same(requests[i].capability.as_str(), allow) {
                let n = to_decimal(id);
                let mut e = cat5(
                    "request ",
                    n.as_str(),
                    " is for '",
                    requests[i].capability.as_str(),
                    "', not '",
                );
                e.append(allow);
                e.append("'");
                return Err(e);
            }
            if !active {
                return Err("grant expiry must be in the future".to_owned());
            }
            Ok(i)
        },
    }
}

/// Approve a request. `granted` is what came of granting the capability, and `signed` of
/// signing the grant; the request is approved only if both succeeded.
pub fn approve(
    requests: &mut Vec<PendingRequest>,
    id: u64,
    allow: &str,
    active: bool,
    granted: Result<(), String>,
    signed: Result<(), String>,
    now: u64,
) -> (r: Result<(), String>)
    ensures
        r is Ok <==> objection(old(requests)@, id, allow@, active) is None && granted is Ok && signed
            is Ok,
        objection(old(requests)@, id, allow@, active) matches Some(e) ==> (r matches Err(x) && x@ == e),
        objection(old(requests)@, id, allow@, active) is None && granted is Err ==> (r matches Err(x)
            && x@ == "grant failed: "@ + granted->Err_0@),
        objection(old(requests)@, id, allow@, active) is None && granted is Ok && signed is Err ==> (r matches Err(
            x,
        ) && x@ == "signed grant failed: "@ + signed->Err_0@),
        r is Err ==> final(requests)@ == old(requests)@,
        r is Ok ==> exists|i: int| #[trigger]
            asked_at(old(requests)@, id, i) && decided_as(
                old(requests)@,
                final(requests)@,
                i,
                "approved"@,
                Some(now),
            ),
{
    match judge_approval(requests, id, allow, active) {
        Err(e) => Err(e),
        Ok(i) => {
            if let Err(e) = granted {
                return Err(text::cat("grant failed: ", e.as_str()));
            }
            if let Err(e) = signed {
                return Err(text::cat("signed grant failed: ", e.as_str()));
            }
            let ghost was = requests@;
            requests[i].status = "approved".to_owned();
            requests[i].granted_at = Some(now);
            proof {
                assert(asked_at(was, id, i as int));
                assert(decided_as(was, requests@, i as int, "approved"@, Some(now)));
            }
            Ok(())
        },
    }
}

/// Deny a request.
pub fn deny(requests: &mut Vec<PendingRequest>, id: u64) -> (r: Result<(), String>)
    ensures
        r is Ok <==> exists|i: int| asked_at(old(requests)@, id, i),
        r matches Err(e) ==> e@ == not_found(id) && final(requests)@ == old(requests)@,
        r is Ok ==> exists|i: int| #[trigger]
            asked_at(old(requests)@, id, i) && decided_as(
                old(requests)@,
                final(requests)@,
                i,
                "denied"@,
                old(requests)@[i].granted_at,
            ),
{
    match find(requests, id) {
        None => Err(say_not_found(id)),
        Some(i) => {
            let ghost was = requests@;
            requests[i].status = "denied".to_owned();
            proof {
                assert(asked_at(was, id, i as int));
                assert(decided_as(was, requests@, i as int, "denied"@, was[i as int].granted_at));
            }
            Ok(())
        },
    }
}

/// The request at `i` was decided, and no other was touched.
pub open spec fn decided_as(
    was: Seq<PendingRequest>,
    now: Seq<PendingRequest>,
    i: int,
    status: Seq<char>,
    granted_at: Option<u64>,
) -> bool {
    &&& now.len() == was.len()
    &&& forall|j: int| 0 <= j < was.len() && j != i ==> now[j] == was[j]
    &&& now[i].id == was[i].id
    &&& now[i].peer == was[i].peer
    &&& now[i].capability == was[i].capability
    &&& now[i].timestamp == was[i].timestamp
    &&& now[i].status@ == status
    &&& now[i].granted_at == granted_at
}

} // verus!
