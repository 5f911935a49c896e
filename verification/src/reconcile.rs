//! Correcting what was missed: the server's roster against the links at hand.

use vstd::prelude::*;
use vstd::string::*;
use crate::frame;
use crate::frame::text_at;
use crate::keyed;
use crate::keyed::{lists, Keyed};

verus! {

/// A link, and whether its absence from a roster means anything.
pub struct LinkSeen {
    pub pid: String,
    /// The roster would name its peer, if it were there.
    pub expected: bool,
}

/// No link occurs twice.
pub open spec fn distinct_links(links: Seq<LinkSeen>) -> bool {
    forall|i: int, j: int|
        0 <= i < j < links.len() ==> (#[trigger] links[i]).pid@ != (#[trigger] links[j]).pid@
}

/// There is a link to `p` that the roster would name and does not.
pub open spec fn is_absent(links: Seq<LinkSeen>, present: Seq<String>, p: Seq<char>) -> bool {
    exists|i: int|
        0 <= i < links.len() && (#[trigger] links[i]).pid@ == p && links[i].expected
            && !keyed::listed(present, p)
}

/// There is a link to `p`.
pub open spec fn is_linked(links: Seq<LinkSeen>, p: Seq<char>) -> bool {
    exists|i: int| 0 <= i < links.len() && (#[trigger] links[i]).pid@ == p
}

/// A peer is missed after a roster: `was` says that it was missed before, `linked` that
/// there is a link to it, `absent` that the roster should name it and does not.
pub open spec fn misses(was: bool, linked: bool, absent: bool) -> bool {
    if linked {
        absent && !was
    } else {
        was
    }
}

/// A peer that was missed before is absent again.
pub open spec fn is_gone(was: bool, absent: bool) -> bool {
    was && absent
}

proof fn absent_push(links: Seq<LinkSeen>, n: int, present: Seq<String>, p: Seq<char>)
    requires
        0 <= n < links.len(),
        distinct_links(links),
    ensures
        is_absent(links.subrange(0, n + 1), present, p) == (is_absent(
            links.subrange(0, n),
            present,
            p,
        ) || (links[n].pid@ == p && links[n].expected && !keyed::listed(present, p))),
        is_linked(links.subrange(0, n + 1), p) == (is_linked(links.subrange(0, n), p)
            || links[n].pid@ == p),
        is_linked(links.subrange(0, n), p) ==> links[n].pid@ != p,
        is_absent(links.subrange(0, n), present, p) ==> is_linked(links.subrange(0, n), p),
{
    let (a, b) = (links.subrange(0, n), links.subrange(0, n + 1));
    assert(b =~= a.push(links[n]));
    assert forall|i: int| 0 <= i < n implies a[i] == links[i] && b[i] == links[i] by {}
    if is_absent(a, present, p) {
        let i = choose|i: int|
            0 <= i < a.len() && (#[trigger] a[i]).pid@ == p && a[i].expected && !keyed::listed(
                present,
                p,
            );
        assert(b[i].pid@ == p);
    }
    if is_linked(a, p) {
        let i = choose|i: int| 0 <= i < a.len() && (#[trigger] a[i]).pid@ == p;
        assert(b[i].pid@ == p);
        assert(links[i].pid@ != links[n].pid@);
    }
    assert(b[n] == links[n]);
    if is_absent(b, present, p) {
        let i = choose|i: int|
            0 <= i < b.len() && (#[trigger] b[i]).pid@ == p && b[i].expected && !keyed::listed(
                present,
                p,
            );
        if i < n {
            assert(a[i].pid@ == p);
        }
    }
    if is_linked(b, p) {
        let i = choose|i: int| 0 <= i < b.len() && (#[trigger] b[i]).pid@ == p;
        if i < n {
            assert(a[i].pid@ == p);
        }
    }
}

/// A roster has come. A peer that it should name and does not is noted as missed once; one
/// that was missed before, with no roster naming it since, is gone. One roster alone may
/// cross a peer that is just joining.
pub fn reconcile(missed: &mut Keyed<u64>, links: &Vec<LinkSeen>, present: &Vec<String>) -> (gone: Vec<
    String,
>)
    requires
        old(missed).wf(),
        distinct_links(links@),
    ensures
        final(missed).wf(),
        forall|p: Seq<char>| #[trigger]
            keyed::listed(gone@, p) == is_gone(
                old(missed)@.contains_key(p),
                is_absent(links@, present@, p),
            ),
        forall|p: Seq<char>| #[trigger]
            final(missed)@.contains_key(p) == misses(
                old(missed)@.contains_key(p),
                is_linked(links@, p),
                is_absent(links@, present@, p),
            ),
{
    let mut gone: Vec<String> = Vec::new();
    let mut i: usize = 0;
    let ghost was = missed@;
    proof {
        assert forall|p: Seq<char>| !is_linked(links@.subrange(0, 0), p) && !is_absent(
            links@.subrange(0, 0),
            present@,
            p,
        ) && !keyed::listed(gone@, p) by {}
    }
    while i < links.len()
        invariant
            i <= links@.len(),
            distinct_links(links@),
            missed.wf(),
            forall|p: Seq<char>| #[trigger]
                keyed::listed(gone@, p) <==> is_absent(
                    links@.subrange(0, i as int),
                    present@,
                    p,
                ) && was.contains_key(p),
            forall|p: Seq<char>| #[trigger]
                missed@.contains_key(p) <==> if is_linked(links@.subrange(0, i as int), p) {
                    is_absent(links@.subrange(0, i as int), present@, p) && !was.contains_key(p)
                } else {
                    was.contains_key(p)
                },
        decreases links.len() - i,
    {
        let ghost q = links@[i as int].pid@;
        let ghost m0 = missed@;
        let ghost g0 = gone@;
        proof {
            absent_push(links@, i as int, present@, q);
            assert(m0.contains_key(q) == was.contains_key(q));
            assert(!keyed::listed(g0, q));
        }
        if links[i].expected && !lists(present, links[i].pid.as_str()) {
            if missed.contains(links[i].pid.as_str()) {
                gone.push(links[i].pid.clone());
                let _ = missed.remove(links[i].pid.as_str());
                proof {
                    keyed::listed_push(g0, gone@.last());
                }
            } else {
                missed.insert(links[i].pid.as_str(), 1);
            }
        } else {
            let _ = missed.remove(links[i].pid.as_str());
        }
        i += 1;
        proof {
            assert forall|p: Seq<char>| #[trigger] keyed::listed(gone@, p) <==> is_absent(
                links@.subrange(0, i as int),
                present@,
                p,
            ) && was.contains_key(p) by {
                absent_push(links@, i - 1, present@, p);
                assert(keyed::listed(g0, p) <==> is_absent(links@.subrange(0, i - 1), present@, p)
                    && was.contains_key(p));
            }
            assert forall|p: Seq<char>| #[trigger] missed@.contains_key(p) <==> if is_linked(
                links@.subrange(0, i as int),
                p,
            ) {
                is_absent(links@.subrange(0, i as int), present@, p) && !was.contains_key(p)
            } else {
                was.contains_key(p)
            } by {
                absent_push(links@, i - 1, present@, p);
                assert(m0.contains_key(p) <==> if is_linked(links@.subrange(0, i - 1), p) {
                    is_absent(links@.subrange(0, i - 1), present@, p) && !was.contains_key(p)
                } else {
                    was.contains_key(p)
                });
            }
        }
    }
    proof {
        assert(links@.subrange(0, links@.len() as int) =~= links@);
    }
    gone
}

/// Nobody is taken for gone on the word of one roster: who is gone by the second of two
/// rosters, and was not missed before them, was absent from both.
pub proof fn one_absence_is_not_enough(linked: bool, first_absent: bool, second_absent: bool)
    requires
        first_absent ==> linked,
    ensures
        !is_gone(false, first_absent),
        is_gone(misses(false, linked, first_absent), second_absent) ==> first_absent
            && second_absent,
        !misses(true, true, false),
{
}

/// The ids that a roster names.
pub open spec fn ids(peers: Seq<serde_json::Value>) -> Seq<Seq<char>> {
    frame::texts(Seq::new(peers.len(), |i: int| frame::json(peers[i]).member("id"@)))
}

/// The ids that a roster names.
pub fn roster_ids(peers: &Vec<serde_json::Value>) -> (r: Vec<String>)
    ensures
        frame::views(r@) == ids(peers@),
{
    let mut out: Vec<String> = Vec::new();
    let mut i: usize = 0;
    let ghost all = Seq::new(peers@.len(), |i: int| frame::json(peers@[i]).member("id"@));
    proof {
        assert(all.subrange(0, 0) =~= Seq::<frame::Json>::empty());
        assert(frame::views(out@) =~= frame::texts(all.subrange(0, 0)));
    }
    while i < peers.len()
        invariant
            i <= peers@.len(),
            all == Seq::new(peers@.len(), |i: int| frame::json(peers@[i]).member("id"@)),
            frame::views(out@) == frame::texts(all.subrange(0, i as int)),
        decreases peers.len() - i,
    {
        let ghost before = frame::views(out@);
        let ghost upto = all.subrange(0, i + 1);
        proof {
            assert(upto.drop_last() =~= all.subrange(0, i as int));
            assert(upto.last() == frame::json(peers@[i as int]).member("id"@));
        }
        if let Some(s) = text_at(&peers[i], "id") {
            out.push(s.to_owned());
            proof {
                assert(frame::views(out@) =~= before.push(s@));
            }
        }
        i += 1;
    }
    proof {
        assert(all.subrange(0, all.len() as int) =~= all);
    }
    out
}

/// Whether a roster entry names a peer that we have no link to: one whose joining was
/// missed.
pub fn is_unknown(p: &serde_json::Value, linked: &Vec<String>) -> (r: bool)
    ensures
        r == (match frame::json(*p).text_at("id"@) {
            Some(id) => id.len() > 0 && !keyed::listed(linked@, id),
            None => false,
        }),
{
    match text_at(p, "id") {
        Some(id) => !id.is_empty() && !lists(linked, id),
        None => false,
    }
}

/// Whether a room's roster would name the peer of a link: it would not, if the link came
/// off a channel.
pub fn room_sourced(has_secret: bool, fleet_pending: bool, fleet_verified: bool) -> (r: bool)
    ensures
        r == !(has_secret || fleet_pending || fleet_verified),
{
    !(has_secret || fleet_pending || fleet_verified)
}

} // verus!
