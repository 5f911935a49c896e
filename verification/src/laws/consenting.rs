//! Requests that wait for the owner's word: how they queue up, and what a word does.

use vstd::prelude::*;
use vstd::string::*;
use crate::frame;
use crate::requests;
use crate::requests::{
    add_pending_request, approve, deny, judge_approval, notify_hook, PendingRequest,
};
use crate::text;

verus! {

proof fn states_are_apart()
    ensures
        "pending"@ != "approved"@,
        "pending"@ != "denied"@,
{
    reveal_strlit("pending");
    reveal_strlit("approved");
    reveal_strlit("denied");
    assert("pending"@.len() == 7);
    assert("approved"@.len() == 8);
    assert("denied"@.len() == 6);
}

/// The first request of this id that waits is at `k`.
pub open spec fn waits_at(s: Seq<PendingRequest>, id: u64, k: int) -> bool {
    &&& 0 <= k < s.len()
    &&& s[k].id == id
    &&& s[k].status@ == "pending"@
    &&& forall|j: int| 0 <= j < k ==> !((#[trigger] s[j]).id == id && s[j].status@ == "pending"@)
}

proof fn only_one_waits(s: Seq<PendingRequest>, id: u64, k: int)
    requires
        waits_at(s, id, k),
    ensures
        requests::asked_at(s, id, k),
        forall|i: int| #[trigger] requests::asked_at(s, id, i) ==> i == k,
{
    assert forall|i: int| #[trigger] requests::asked_at(s, id, i) implies i == k by {
        if i < k {
            assert(!(s[i].id == id && s[i].status@ == "pending"@));
        }
        if k < i {
            assert(!(s[k].id == id && requests::is_pending(s[k])));
        }
    }
}

proof fn nobody_waits(s: Seq<PendingRequest>, id: u64)
    requires
        forall|j: int| 0 <= j < s.len() ==> !((#[trigger] s[j]).id == id && s[j].status@ == "pending"@),
    ensures
        forall|i: int| !#[trigger] requests::asked_at(s, id, i),
{
    assert forall|i: int| !#[trigger] requests::asked_at(s, id, i) by {
        if 0 <= i < s.len() {
            assert(!(s[i].id == id && s[i].status@ == "pending"@));
        }
    }
}

/// A request is approved for what it asks for, and only if the grant is still to run.
pub proof fn what_can_be_approved(s: Vec<PendingRequest>, id: u64, allow: &str, active: bool, r: Result<usize, String>, k: int)
    requires
        call_ensures(judge_approval, (&s, id, allow, active), r),
        waits_at(s@, id, k),
    ensures
        s@[k].capability@ == allow@ && active ==> r is Ok && r->Ok_0 == k,
        s@[k].capability@ != allow@ ==> r is Err && r->Err_0@ == "request "@ + text::decimal(id as nat)
            + " is for '"@ + s@[k].capability@ + "', not '"@ + allow@ + "'"@,
        s@[k].capability@ == allow@ && !active ==> r is Err && r->Err_0@
            == "grant expiry must be in the future"@,
{
    only_one_waits(s@, id, k);
    assert((choose|i: int| requests::asked_at(s@, id, i)) == k);
}

/// What does not wait can neither be approved nor denied.
pub proof fn what_does_not_wait_is_not_decided(
    s: Vec<PendingRequest>,
    a: &mut Vec<PendingRequest>,
    d: &mut Vec<PendingRequest>,
    id: u64,
    allow: &str,
    active: bool,
    granted: Result<(), String>,
    signed: Result<(), String>,
    now: u64,
    r: (Result<usize, String>, Result<(), String>, Result<(), String>),
)
    requires
        forall|j: int|
            0 <= j < s@.len() ==> !((#[trigger] s@[j]).id == id && s@[j].status@ == "pending"@),
        *old(a) == s,
        *old(d) == s,
        call_ensures(judge_approval, (&s, id, allow, active), r.0),
        call_ensures(approve, (a, id, allow, active, granted, signed, now), r.1),
        call_ensures(deny, (d, id), r.2),
    ensures
        r.0 is Err && r.0->Err_0@ == "request "@ + text::decimal(id as nat)
            + " not found or not pending"@,
        r.1 is Err && r.1->Err_0@ == "request "@ + text::decimal(id as nat)
            + " not found or not pending"@ && final(a)@ == old(a)@,
        r.2 is Err && r.2->Err_0@ == "request "@ + text::decimal(id as nat)
            + " not found or not pending"@ && final(d)@ == old(d)@,
{
    nobody_waits(s@, id);
}

/// An approval is kept once the grant is, and signed: then the request is approved as of now. Where
/// either fails nothing changes, and it is said which.
pub proof fn an_approval_is_kept_with_its_grant(
    s: &mut Vec<PendingRequest>,
    id: u64,
    allow: &str,
    active: bool,
    granted: Result<(), String>,
    signed: Result<(), String>,
    now: u64,
    r: Result<(), String>,
    k: int,
    j: int,
)
    requires
        call_ensures(approve, (s, id, allow, active, granted, signed, now), r),
        waits_at(old(s)@, id, k),
        0 <= j < old(s)@.len(),
    ensures
        ({
            let fit = old(s)@[k].capability@ == allow@ && active;
            &&& fit && granted is Ok && signed is Ok ==> r is Ok
            &&& !fit ==> r is Err
            &&& fit && granted is Err ==> r is Err && r->Err_0@ == "grant failed: "@ + granted->Err_0@
            &&& fit && granted is Ok && signed is Err ==> r is Err && r->Err_0@
                == "signed grant failed: "@ + signed->Err_0@
        }),
        r is Err ==> final(s)@ == old(s)@,
        r is Ok ==> {
            &&& final(s)@.len() == old(s)@.len()
            &&& final(s)@[k].status@ == "approved"@
            &&& final(s)@[k].granted_at == Some(now)
            &&& final(s)@[k].id == id
            &&& final(s)@[k].peer == old(s)@[k].peer
            &&& final(s)@[k].capability == old(s)@[k].capability
            &&& final(s)@[k].timestamp == old(s)@[k].timestamp
            &&& j != k ==> final(s)@[j] == old(s)@[j]
        },
{
    only_one_waits(old(s)@, id, k);
    assert((choose|i: int| requests::asked_at(old(s)@, id, i)) == k);
}

/// A request that is denied is so, and no other is; it cannot be decided again.
pub proof fn a_denial_is_for_its_request(s: &mut Vec<PendingRequest>, id: u64, r: Result<(), String>, k: int, j: int)
    requires
        call_ensures(deny, (s, id), r),
        waits_at(old(s)@, id, k),
        0 <= j < old(s)@.len(),
    ensures
        r is Ok,
        final(s)@.len() == old(s)@.len(),
        final(s)@[k].status@ == "denied"@,
        !waits_at(final(s)@, id, k),
        final(s)@[k].id == id,
        final(s)@[k].peer == old(s)@[k].peer,
        final(s)@[k].capability == old(s)@[k].capability,
        j != k ==> final(s)@[j] == old(s)@[j],
{
    only_one_waits(old(s)@, id, k);
    states_are_apart();
}

/// How many of the first `n` requests wait.
pub open spec fn waiting(s: Seq<PendingRequest>, n: int) -> nat
    decreases n,
{
    if n <= 0 {
        0
    } else {
        waiting(s, n - 1) + if s[n - 1].status@ == "pending"@ {
            1nat
        } else {
            0
        }
    }
}

proof fn waiting_of_the_first(s: Seq<PendingRequest>, n: int)
    requires
        0 <= n < s.len(),
    ensures
        waiting(s.drop_last(), n) == waiting(s, n),
    decreases n,
{
    if n > 0 {
        waiting_of_the_first(s, n - 1);
    }
}

proof fn waiting_is_the_count(s: Seq<PendingRequest>)
    ensures
        requests::pending_count(s) == waiting(s, s.len() as int),
    decreases s.len(),
{
    if s.len() > 0 {
        waiting_is_the_count(s.drop_last());
        waiting_of_the_first(s, s.len() - 1);
    }
}

proof fn top_is_above(s: Seq<PendingRequest>)
    ensures
        forall|i: int| 0 <= i < s.len() ==> (#[trigger] s[i]).id <= requests::top_id(s),
        s.len() == 0 ==> requests::top_id(s) == 0,
    decreases s.len(),
{
    if s.len() > 0 {
        let t = s.drop_last();
        top_is_above(t);
        assert forall|i: int| 0 <= i < s.len() implies (#[trigger] s[i]).id <= requests::top_id(s) by {
            if i < t.len() {
                assert(t[i] == s[i]);
            }
        }
    }
}

/// A new request comes last, as it was made, and waits; its id is above that of every other. While
/// fewer than a hundred wait, every other stays where it is.
pub proof fn a_new_request_waits(
    peer: &str,
    capability: &str,
    s: &mut Vec<PendingRequest>,
    now: u64,
    lines: Vec<String>,
    i: int,
)
    requires
        call_ensures(add_pending_request, (peer, capability, s, now), lines),
        requests::top_id(old(s)@) < u64::MAX,
        0 <= i < old(s)@.len(),
    ensures
        final(s)@.len() > 0,
        final(s)@.last().peer@ == peer@,
        final(s)@.last().capability@ == capability@,
        final(s)@.last().timestamp == now,
        final(s)@.last().status@ == "pending"@,
        final(s)@.last().granted_at is None,
        final(s)@.last().id > old(s)@[i].id,
        waiting(old(s)@, old(s)@.len() as int) < 100 ==> final(s)@.len() == old(s)@.len() + 1
            && final(s)@[i] == old(s)@[i] && lines@.len() == 0,
{
    top_is_above(old(s)@);
    waiting_is_the_count(old(s)@);
    if waiting(old(s)@, old(s)@.len() as int) < 100 {
        assert(final(s)@.drop_last() == old(s)@);
        assert(final(s)@.drop_last()[i] == final(s)@[i]);
        assert(frame::views(lines@).len() == lines@.len());
    }
}

/// Where a hundred wait the first of them that waits gives way, it alone, and this is said of it.
pub proof fn the_oldest_gives_way(
    peer: &str,
    capability: &str,
    s: &mut Vec<PendingRequest>,
    now: u64,
    lines: Vec<String>,
    k: int,
)
    requires
        call_ensures(add_pending_request, (peer, capability, s, now), lines),
        requests::top_id(old(s)@) < u64::MAX,
        waiting(old(s)@, old(s)@.len() as int) == 100,
        0 <= k < old(s)@.len(),
        old(s)@[k].status@ == "pending"@,
        forall|j: int| 0 <= j < k ==> (#[trigger] old(s)@[j]).status@ != "pending"@,
    ensures
        final(s)@.drop_last() == old(s)@.remove(k),
        final(s)@.len() == old(s)@.len(),
        lines@.len() == 1,
        lines@[0]@ == "consent queue full (100), evicting oldest pending: id="@ + text::decimal(
            old(s)@[k].id as nat,
        ) + " peer="@ + old(s)@[k].peer@ + " cap="@ + old(s)@[k].capability@,
{
    let was = old(s)@;
    waiting_is_the_count(was);
    assert(requests::first_pending(was, k));
    let o = requests::oldest(was);
    assert(requests::first_pending(was, o));
    assert(o == k) by {
        if o < k {
            assert(was[o].status@ != "pending"@);
        }
        if k < o {
            assert(!requests::is_pending(was[k]));
        }
    }
    let rest = was.remove(k);
    one_less_waits(was, k);
    waiting_is_the_count(rest);
    assert(requests::made_room(rest) == rest);
    assert(requests::evicted_lines(rest) =~= Seq::<Seq<char>>::empty());
    assert(requests::evicted_lines(was) =~= seq![requests::evicted_line(was[k])]);
    assert(frame::views(lines@).len() == lines@.len());
    assert(frame::views(lines@)[0] == lines@[0]@);
}

proof fn one_less_waits(s: Seq<PendingRequest>, k: int)
    requires
        0 <= k < s.len(),
        s[k].status@ == "pending"@,
    ensures
        waiting(s.remove(k), s.len() - 1) == waiting(s, s.len() as int) - 1,
{
    waiting_before(s, k, k);
    waiting_after(s, k, s.len() as int);
}

proof fn waiting_before(s: Seq<PendingRequest>, k: int, n: int)
    requires
        0 <= n <= k < s.len(),
    ensures
        waiting(s.remove(k), n) == waiting(s, n),
    decreases n,
{
    if n > 0 {
        waiting_before(s, k, n - 1);
    }
}

proof fn waiting_after(s: Seq<PendingRequest>, k: int, n: int)
    requires
        0 <= k < n <= s.len(),
        s[k].status@ == "pending"@,
    ensures
        waiting(s.remove(k), n - 1) == waiting(s, n) - 1,
    decreases n,
{
    if n == k + 1 {
        waiting_before(s, k, k);
    } else {
        waiting_after(s, k, n - 1);
        assert(s.remove(k)[n - 2] == s[n - 1]);
    }
}

/// The owner is told of a request by the hook, where one is set.
pub proof fn the_hook_is_told(hook: Option<&str>, r: Option<&str>)
    requires
        call_ensures(notify_hook, (hook,), r),
    ensures
        hook is None ==> r is None,
        hook is Some && hook->0@.len() == 0 ==> r is None,
        hook is Some && hook->0@.len() > 0 ==> r is Some && r->0@ == hook->0@,
{
}

proof fn room_is_made(s: Seq<PendingRequest>)
    ensures
        requests::pending_count(requests::made_room(s)) < 100,
        forall|i: int|
            0 <= i < s.len() && (#[trigger] s[i]).status@ != "pending"@ ==> requests::made_room(
                s,
            ).contains(s[i]),
    decreases s.len(),
{
    let o = requests::oldest(s);
    if requests::pending_count(s) >= 100 {
        somebody_waits(s);
        assert(requests::first_pending(s, o));
        let rest = s.remove(o);
        room_is_made(rest);
        assert forall|i: int| 0 <= i < s.len() && (#[trigger] s[i]).status@ != "pending"@ implies requests::made_room(
            s,
        ).contains(s[i]) by {
            let j = if i < o {
                i
            } else {
                i - 1
            };
            assert(rest[j] == s[i]);
        }
    } else {
        assert forall|i: int| 0 <= i < s.len() && (#[trigger] s[i]).status@ != "pending"@ implies requests::made_room(
            s,
        ).contains(s[i]) by {
            assert(requests::made_room(s)[i] == s[i]);
        }
    }
}

proof fn somebody_waits(s: Seq<PendingRequest>)
    requires
        requests::pending_count(s) > 0,
    ensures
        exists|i: int| requests::first_pending(s, i),
    decreases s.len(),
{
    let t = s.drop_last();
    if requests::pending_count(t) > 0 {
        somebody_waits(t);
        let i = choose|i: int| requests::first_pending(t, i);
        assert(requests::first_pending(s, i)) by {
            assert(t[i] == s[i]);
            assert forall|j: int| 0 <= j < i implies !requests::is_pending(#[trigger] s[j]) by {
                assert(t[j] == s[j]);
            }
        }
    } else {
        nobody_pending(t);
        assert(requests::first_pending(s, s.len() - 1)) by {
            assert forall|j: int| 0 <= j < s.len() - 1 implies !requests::is_pending(#[trigger] s[j]) by {
                assert(t[j] == s[j]);
            }
        }
    }
}

proof fn nobody_pending(s: Seq<PendingRequest>)
    requires
        requests::pending_count(s) == 0,
    ensures
        forall|j: int| 0 <= j < s.len() ==> !requests::is_pending(#[trigger] s[j]),
    decreases s.len(),
{
    if s.len() > 0 {
        let t = s.drop_last();
        nobody_pending(t);
        assert forall|j: int| 0 <= j < s.len() implies !requests::is_pending(#[trigger] s[j]) by {
            if j < t.len() {
                assert(t[j] == s[j]);
            }
        }
    }
}

/// However many wait, a hundred at most do once another came, and what was decided is never pushed
/// out.
pub proof fn a_hundred_wait_at_most(
    peer: &str,
    capability: &str,
    s: &mut Vec<PendingRequest>,
    now: u64,
    lines: Vec<String>,
    i: int,
)
    requires
        call_ensures(add_pending_request, (peer, capability, s, now), lines),
        0 <= i < old(s)@.len(),
    ensures
        waiting(final(s)@, final(s)@.len() as int) <= 100,
        old(s)@[i].status@ != "pending"@ ==> final(s)@.contains(old(s)@[i]),
{
    room_is_made(old(s)@);
    let short = final(s)@.drop_last();
    assert(short == requests::made_room(old(s)@));
    waiting_is_the_count(short);
    waiting_is_the_count(final(s)@);
    if old(s)@[i].status@ != "pending"@ {
        assert(short.contains(old(s)@[i]));
        let k = short.index_of(old(s)@[i]);
        assert(final(s)@[k] == short[k]);
    }
}

} // verus!
