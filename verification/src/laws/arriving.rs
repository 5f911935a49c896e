//! A file on its way in: what was begun is what is placed, each write counts once, and a file that
//! stays wrong is given up.

use vstd::prelude::*;
use vstd::string::*;
use crate::assembly;
use crate::assembly::{Assembly, ChunkStep, EndStep, Settled};
use crate::coverage;
use crate::frame;
use crate::keyed;
use crate::recv_files::{IncomingFile, VerifyResult};

verus! {

/// A file arrives from `peer` over `sid` that was described like this.
pub open spec fn arrives_as(
    a: Assembly,
    peer: Seq<char>,
    sid: u32,
    id: Seq<char>,
    name: Seq<char>,
    size: u64,
    part_path: Seq<char>,
    full: Option<String>,
) -> bool {
    exists|i: int|
        0 <= i < a.files@.len() && {
            let f = #[trigger] a.files@[i];
            f.peer@ == peer && f.sid == sid && f.id@ == id && f.name@ == name && f.size == size
                && f.part_path@ == part_path && f.full == full
        }
}

/// A stream that is begun is that of the file it was begun with, and no other stream is touched.
pub proof fn a_stream_begins_with_its_file(
    a: &mut Assembly,
    peer: &str,
    sid: u32,
    id: &str,
    name: &str,
    size: u64,
    offset: u64,
    part_path: &str,
    full: Option<String>,
    k: int,
)
    requires
        old(a).wf(),
        call_ensures(Assembly::begin, (a, peer, sid, id, name, size, offset, part_path, full), ()),
        0 <= k < old(a).files@.len(),
    ensures
        arrives_as(*final(a), peer@, sid, id@, name@, size, part_path@, full),
        final(a).files@.last().received == offset,
        final(a).files@.last().id@ == id@,
        final(a).files@.last().inflight == 0,
        !final(a).files@.last().end_seen,
        final(a).completed == old(a).completed,
        final(a).verify_fails == old(a).verify_fails,
        old(a).files@[k].peer@ != peer@ || old(a).files@[k].sid != sid ==> final(a).files@.contains(old(a).files@[k]),
{
    let was = old(a).files@;
    let now = final(a).files@;
    assert(now[now.len() - 1] == now.last());
    if was[k].peer@ != peer@ || was[k].sid != sid {
        if assembly::arriving(was, peer@, sid) {
            let i = choose|i: int| #[trigger]
                assembly::is_at(was, peer@, sid, i) && now.drop_last() == was.remove(i);
            let j = if k < i {
                k
            } else {
                k - 1
            };
            assert(assembly::is_at(was, peer@, sid, i));
            assert(now.drop_last().len() == was.len() - 1);
            assert(now.drop_last()[j] == was.remove(i)[j]);
            assert(now[j] == was[k]);
        } else {
            assert(now.drop_last()[k] == now[k]);
            assert(now[k] == was[k]);
        }
    }
}

/// What bytes come, are written or are lost, and that the stream is said to be over, changes
/// nothing of which file it is: neither of this stream nor of another.
pub proof fn a_stream_stays_that_of_its_file(
    c: &mut Assembly,
    w: &mut Assembly,
    e: &mut Assembly,
    over: (&str, u32),
    offset: Option<u64>,
    pos: u64,
    len: u64,
    wrote: bool,
    r: (ChunkStep, bool, EndStep),
    peer: Seq<char>,
    sid: u32,
    id: Seq<char>,
    name: Seq<char>,
    size: u64,
    part_path: Seq<char>,
    full: Option<String>,
)
    requires
        call_ensures(Assembly::chunk, (c, over.0, over.1, offset), r.0),
        call_ensures(Assembly::written, (w, over.0, over.1, pos, len, wrote), r.1),
        call_ensures(Assembly::file_end, (e, over.0, over.1), r.2),
    ensures
        arrives_as(*old(c), peer, sid, id, name, size, part_path, full) ==> arrives_as(
            *final(c),
            peer,
            sid,
            id,
            name,
            size,
            part_path,
            full,
        ),
        arrives_as(*old(w), peer, sid, id, name, size, part_path, full) ==> arrives_as(
            *final(w),
            peer,
            sid,
            id,
            name,
            size,
            part_path,
            full,
        ),
        arrives_as(*old(e), peer, sid, id, name, size, part_path, full) ==> arrives_as(
            *final(e),
            peer,
            sid,
            id,
            name,
            size,
            part_path,
            full,
        ),
{
    if arrives_as(*old(c), peer, sid, id, name, size, part_path, full) {
        stays(old(c).files@, final(c).files@, peer, sid, id, name, size, part_path, full);
    }
    if arrives_as(*old(w), peer, sid, id, name, size, part_path, full) {
        stays(old(w).files@, final(w).files@, peer, sid, id, name, size, part_path, full);
    }
    if arrives_as(*old(e), peer, sid, id, name, size, part_path, full) {
        stays(old(e).files@, final(e).files@, peer, sid, id, name, size, part_path, full);
    }
}

proof fn stays(
    was: Seq<IncomingFile>,
    now: Seq<IncomingFile>,
    peer: Seq<char>,
    sid: u32,
    id: Seq<char>,
    name: Seq<char>,
    size: u64,
    part_path: Seq<char>,
    full: Option<String>,
)
    requires
        was.len() == now.len(),
        forall|j: int| 0 <= j < was.len() ==> assembly::same_file(was[j], #[trigger] now[j]),
        exists|i: int|
            0 <= i < was.len() && {
                let f = #[trigger] was[i];
                f.peer@ == peer && f.sid == sid && f.id@ == id && f.name@ == name && f.size == size
                    && f.part_path@ == part_path && f.full == full
            },
    ensures
        exists|i: int|
            0 <= i < now.len() && {
                let f = #[trigger] now[i];
                f.peer@ == peer && f.sid == sid && f.id@ == id && f.name@ == name && f.size == size
                    && f.part_path@ == part_path && f.full == full
            },
{
    let i = choose|i: int|
        0 <= i < was.len() && {
            let f = #[trigger] was[i];
            f.peer@ == peer && f.sid == sid && f.id@ == id && f.name@ == name && f.size == size
                && f.part_path@ == part_path && f.full == full
        };
    assert(assembly::same_file(was[i], now[i]));
}

/// A file that is handed over for placing is the one its stream was begun with: its id, its name,
/// its size and the partial file that holds its bytes. One that is fetched again stays that file,
/// and the sender is asked for it by its id. One that is given up is named.
pub proof fn what_settles_is_what_was_begun(
    a: &mut Assembly,
    peer: &str,
    sid: u32,
    to_stdout: bool,
    verdict: VerifyResult,
    r: Settled,
    id: Seq<char>,
    name: Seq<char>,
    size: u64,
    part_path: Seq<char>,
    full: Option<String>,
)
    requires
        old(a).wf(),
        call_ensures(Assembly::settle, (a, peer, sid, to_stdout, verdict), r),
        arrives_as(*old(a), peer@, sid, id, name, size, part_path, full),
    ensures
        r !is Unknown,
        r matches Settled::Place { file, ack } ==> file.id@ == id && file.name@ == name && file.size
            == size && file.part_path@ == part_path && file.full == full && file.peer@ == peer@
            && file.sid == sid,
        r matches Settled::Refetch { id: again, offset, attempt, restart } ==> again@ == id
            && arrives_as(*final(a), peer@, sid, id, name, size, part_path, full),
        r matches Settled::GiveUp { message } ==> message@ == "  "@ + name
            + ": whole-file checksum still wrong after 3 re-fetches, refusing to accept a corrupt file (partial kept)"@,
{
    let was = old(a).files@;
    let k = choose|i: int|
        0 <= i < was.len() && {
            let f = #[trigger] was[i];
            f.peer@ == peer@ && f.sid == sid && f.id@ == id && f.name@ == name && f.size == size
                && f.part_path@ == part_path && f.full == full
        };
    assert(assembly::is_at(was, peer@, sid, k));
    let i = choose|i: int| #[trigger]
        assembly::is_at(was, peer@, sid, i) && assembly::settles(
            *old(a),
            *final(a),
            i,
            to_stdout,
            verdict,
            r,
        );
    assert(i == k) by {
        if i < k {
            assert(was[i].peer@ == was[k].peer@);
        }
        if k < i {
            assert(was[k].peer@ == was[i].peer@);
        }
    }
    if r is Refetch {
        assert(assembly::same_file(was[k], final(a).files@[k]));
    }
}

/// From the first byte to the last: a file that was begun, of which a piece came and was written,
/// whose stream was said to be over and which then settles, is placed as it was begun.
pub proof fn what_is_placed_is_what_was_begun(
    b: &mut Assembly,
    c: &mut Assembly,
    w: &mut Assembly,
    e: &mut Assembly,
    s: &mut Assembly,
    peer: &str,
    sid: u32,
    id: &str,
    name: &str,
    size: u64,
    from: u64,
    part_path: &str,
    full: Option<String>,
    at: Option<u64>,
    piece: (u64, u64, bool),
    verdict: VerifyResult,
    r: (ChunkStep, bool, EndStep, Settled),
)
    requires
        old(b).wf(),
        assembly::free_part(old(b).files@, part_path@),
        call_ensures(Assembly::begin, (b, peer, sid, id, name, size, from, part_path, full), ()),
        *old(c) == *final(b),
        call_ensures(Assembly::chunk, (c, peer, sid, at), r.0),
        *old(w) == *final(c),
        call_ensures(Assembly::written, (w, peer, sid, piece.0, piece.1, piece.2), r.1),
        *old(e) == *final(w),
        call_ensures(Assembly::file_end, (e, peer, sid), r.2),
        *old(s) == *final(e),
        call_ensures(Assembly::settle, (s, peer, sid, false, verdict), r.3),
    ensures
        r.3 matches Settled::Place { file, ack } ==> file.id@ == id@ && file.name@ == name@
            && file.size == size && file.part_path@ == part_path@ && file.full == full && ack == (
        full is Some),
        full is None || verdict is Match ==> r.3 is Place,
{
    let now = final(b).files@;
    assert(now[now.len() - 1] == now.last());
    assert(arrives_as(*final(b), peer@, sid, id@, name@, size, part_path@, full));
    a_stream_stays_that_of_its_file(
        c,
        w,
        e,
        (peer, sid),
        at,
        piece.0,
        piece.1,
        piece.2,
        (r.0, r.1, r.2),
        peer@,
        sid,
        id@,
        name@,
        size,
        part_path@,
        full,
    );
    what_settles_is_what_was_begun(
        s,
        peer,
        sid,
        false,
        verdict,
        r.3,
        id@,
        name@,
        size,
        part_path@,
        full,
    );
}

/// The file at `k` is the one that arrives from `peer` over `sid`.
pub open spec fn runs_at(files: Seq<IncomingFile>, peer: Seq<char>, sid: u32, k: int) -> bool {
    0 <= k < files.len() && files[k].peer@ == peer && files[k].sid == sid
}

proof fn only_one_runs(a: Assembly, peer: Seq<char>, sid: u32, k: int)
    requires
        a.wf(),
        runs_at(a.files@, peer, sid, k),
    ensures
        assembly::is_at(a.files@, peer, sid, k),
        forall|i: int| #[trigger] assembly::is_at(a.files@, peer, sid, i) ==> i == k,
{
    assert(assembly::is_at(a.files@, peer, sid, k));
    assert forall|i: int| #[trigger] assembly::is_at(a.files@, peer, sid, i) implies i == k by {
        if i < k {
            assert(a.files@[i].peer@ == a.files@[k].peer@);
        }
        if k < i {
            assert(a.files@[k].peer@ == a.files@[i].peer@);
        }
    }
}

/// A piece of a file that arrives is written where it says that it belongs, and one write more is
/// under way; a piece that does not say so, or of no file, is dropped. Nothing else changes.
pub proof fn a_piece_is_written_where_it_belongs(
    a: &mut Assembly,
    peer: &str,
    sid: u32,
    offset: Option<u64>,
    r: ChunkStep,
    k: int,
    j: int,
)
    requires
        old(a).wf(),
        runs_at(old(a).files@, peer@, sid, k),
        old(a).files@[k].inflight < u64::MAX,
        call_ensures(Assembly::chunk, (a, peer, sid, offset), r),
        0 <= j < old(a).files@.len(),
        j != k,
    ensures
        offset matches Some(p) ==> r == (ChunkStep::Write { pos: p }),
        offset is None ==> r is Offsetless && final(a).files@ == old(a).files@,
        final(a).files@.len() == old(a).files@.len(),
        final(a).files@[j] == old(a).files@[j],
        offset is Some ==> final(a).files@[k].inflight == old(a).files@[k].inflight + 1
            && final(a).files@[k].received == old(a).files@[k].received
            && final(a).files@[k].ranges == old(a).files@[k].ranges
            && final(a).files@[k].end_seen == old(a).files@[k].end_seen
            && final(a).files@[k].ack_sid == old(a).files@[k].ack_sid,
        final(a).completed == old(a).completed,
        final(a).verify_fails == old(a).verify_fails,
{
    only_one_runs(*old(a), peer@, sid, k);
}

/// What comes over a stream that no file arrives over changes nothing.
pub proof fn a_stream_without_a_file_changes_nothing(
    c: &mut Assembly,
    w: &mut Assembly,
    e: &mut Assembly,
    s: &mut Assembly,
    peer: &str,
    sid: u32,
    offset: Option<u64>,
    piece: (u64, u64, bool),
    settle: (bool, VerifyResult),
    r: (ChunkStep, bool, EndStep, Settled),
)
    requires
        forall|k: int| !#[trigger] runs_at(old(c).files@, peer@, sid, k),
        *old(w) == *old(c),
        *old(e) == *old(c),
        *old(s) == *old(c),
        call_ensures(Assembly::chunk, (c, peer, sid, offset), r.0),
        call_ensures(Assembly::written, (w, peer, sid, piece.0, piece.1, piece.2), r.1),
        call_ensures(Assembly::file_end, (e, peer, sid), r.2),
        call_ensures(Assembly::settle, (s, peer, sid, settle.0, settle.1), r.3),
    ensures
        r.0 is Unknown,
        !r.1,
        r.2 is Unknown,
        r.3 is Unknown,
        final(c).files@ == old(c).files@,
        final(w).files@ == old(w).files@,
        final(e).files@ == old(e).files@,
        *final(s) == *old(s),
{
    assert(!assembly::arriving(old(c).files@, peer@, sid)) by {
        assert forall|i: int| !#[trigger] assembly::is_at(old(c).files@, peer@, sid, i) by {
            assert(!runs_at(old(c).files@, peer@, sid, i));
        }
    }
}

/// A write that landed makes just its bytes written; one that did not leaves a gap. Either way one
/// write less is under way, and the file can be completed once it was the last of a stream that is
/// over.
pub proof fn a_write_makes_its_bytes_written(
    a: &mut Assembly,
    peer: &str,
    sid: u32,
    pos: u64,
    len: u64,
    wrote: bool,
    r: bool,
    k: int,
    j: int,
    b: int,
)
    requires
        old(a).wf(),
        runs_at(old(a).files@, peer@, sid, k),
        call_ensures(Assembly::written, (a, peer, sid, pos, len, wrote), r),
        0 <= j < old(a).files@.len(),
    ensures
        ({
            let was = old(a).files@[k];
            let now = final(a).files@[k];
            &&& coverage::covered(now.ranges@).contains(b) <==> coverage::covered(was.ranges@).contains(
                b,
            ) || (wrote && pos <= b < pos + len)
            &&& now.received == coverage::covered(now.ranges@).len()
            &&& !wrote ==> now.received == was.received
            &&& now.inflight == was.inflight - 1
            &&& now.end_seen == was.end_seen
            &&& now.ack_sid == was.ack_sid
            &&& r <==> was.inflight == 1 && was.end_seen
        }),
        j != k ==> final(a).files@[j] == old(a).files@[j],
        final(a).files@.len() == old(a).files@.len(),
        final(a).completed == old(a).completed,
        final(a).verify_fails == old(a).verify_fails,
{
    only_one_runs(*old(a), peer@, sid, k);
    assert(final(a).files@[k].wf());
    coverage::measure_counts_bytes(final(a).files@[k].ranges@);
    if wrote {
        assert(coverage::covers(final(a).files@[k].ranges@, b) == (coverage::covers(
            old(a).files@[k].ranges@,
            b,
        ) || pos <= b < pos + len));
    }
}

/// The word that a stream is over is for that stream: where writes are under way it is remembered,
/// and the last of them completes the file; the ack names the stream.
pub proof fn the_end_of_a_stream_is_remembered(a: &mut Assembly, peer: &str, sid: u32, r: EndStep, k: int, j: int)
    requires
        old(a).wf(),
        runs_at(old(a).files@, peer@, sid, k),
        call_ensures(Assembly::file_end, (a, peer, sid), r),
        0 <= j < old(a).files@.len(),
    ensures
        r is Deferred <==> old(a).files@[k].inflight > 0,
        r is Ready <==> old(a).files@[k].inflight == 0,
        r is Deferred ==> final(a).files@[k].end_seen,
        final(a).files@[k].ack_sid == sid,
        final(a).files@[k].inflight == old(a).files@[k].inflight,
        final(a).files@[k].received == old(a).files@[k].received,
        final(a).files@[k].ranges == old(a).files@[k].ranges,
        j != k ==> final(a).files@[j] == old(a).files@[j],
        final(a).files@.len() == old(a).files@.len(),
{
    only_one_runs(*old(a), peer@, sid, k);
}

/// A file that settles is delivered, given up or fetched again: to the standard output it is
/// delivered as it came; without a digest it is placed and not acked; with one that matched it is
/// placed and acked; and with one that did not it is fetched again, at most three times in a row.
pub proof fn a_file_settles_by_its_digest(
    a: &mut Assembly,
    peer: &str,
    sid: u32,
    to_stdout: bool,
    verdict: VerifyResult,
    r: Settled,
    k: int,
)
    requires
        old(a).wf(),
        runs_at(old(a).files@, peer@, sid, k),
        call_ensures(Assembly::settle, (a, peer, sid, to_stdout, verdict), r),
    ensures
        ({
            let f = old(a).files@[k];
            let fails = old(a).verify_fails@;
            let few = !fails.contains_key(f.id@) || fails[f.id@] < 3;
            &&& r is Streamed <==> to_stdout
            &&& r is Place <==> !to_stdout && (f.full is None || verdict is Match)
            &&& r is Refetch <==> !to_stdout && f.full is Some && verdict is Mismatch && few
            &&& r is GiveUp <==> !to_stdout && f.full is Some && verdict is Mismatch && !few
            &&& r matches Settled::Place { file, ack } ==> (ack <==> f.full is Some) && file == f
            &&& final(a).completed == old(a).completed + if to_stdout {
                1int
            } else {
                0
            }
        }),
{
    only_one_runs(*old(a), peer@, sid, k);
}

/// A file that is done with leaves, and it alone; one that is fetched again stays, with what is
/// good of it: nothing where it starts over, and otherwise every byte that was written.
pub proof fn what_is_settled_leaves_or_starts_over(
    a: &mut Assembly,
    peer: &str,
    sid: u32,
    verdict: VerifyResult,
    r: Settled,
    k: int,
    j: int,
)
    requires
        old(a).wf(),
        runs_at(old(a).files@, peer@, sid, k),
        call_ensures(Assembly::settle, (a, peer, sid, false, verdict), r),
        0 <= j < old(a).files@.len(),
        j != k,
    ensures
        ({
            let was = old(a).files@[k];
            let now = final(a).files@[k];
            &&& r !is Refetch ==> final(a).files@.len() == old(a).files@.len() - 1 && final(a).files@[if j < k { j } else { j - 1 }] == old(a).files@[j]
            &&& r matches Settled::Refetch { id, offset, attempt, restart } ==> {
                &&& final(a).files@.len() == old(a).files@.len()
                &&& final(a).files@[j] == old(a).files@[j]
                &&& verdict == (VerifyResult::Mismatch { restart_from_zero: restart })
                &&& restart ==> offset == 0 && now.received == 0 && now.ranges@.len() == 0
                &&& !restart ==> offset == was.received && now.received == was.received
                    && now.ranges@ == was.ranges@
                &&& !now.end_seen
                &&& now.ack_sid == was.ack_sid
                &&& now.inflight == was.inflight
            }
        }),
{
    only_one_runs(*old(a), peer@, sid, k);
}

/// A failure counts for its own file, and success or giving up forgets it.
pub proof fn failures_count_for_their_file(
    a: &mut Assembly,
    peer: &str,
    sid: u32,
    verdict: VerifyResult,
    r: Settled,
    k: int,
    other: Seq<char>,
)
    requires
        old(a).wf(),
        runs_at(old(a).files@, peer@, sid, k),
        call_ensures(Assembly::settle, (a, peer, sid, false, verdict), r),
        old(a).files@[k].full is Some,
    ensures
        ({
            let id = old(a).files@[k].id@;
            let was = old(a).verify_fails@;
            let now = final(a).verify_fails@;
            &&& other != id ==> now.contains_key(other) == was.contains_key(other)
            &&& other != id && was.contains_key(other) ==> now[other] == was[other]
            &&& r is Place || r is GiveUp ==> !now.contains_key(id)
            &&& r matches Settled::Refetch { attempt, .. } ==> now.contains_key(id) && now[id]
                == attempt && attempt == 1 + if was.contains_key(id) {
                was[id] as int
            } else {
                0
            }
        }),
{
    only_one_runs(*old(a), peer@, sid, k);
}

/// A file that stays wrong is fetched again three times, counted from one, and then given up,
/// whatever was written of it in between.
pub proof fn three_times_and_no_more(
    s: &mut Assembly,
    t: &mut Assembly,
    u: &mut Assembly,
    v: &mut Assembly,
    peer: &str,
    sid: u32,
    restart: (bool, bool, bool, bool),
    r: (Settled, Settled, Settled, Settled),
    k: (int, int, int, int),
    id: Seq<char>,
)
    requires
        old(s).wf() && runs_at(old(s).files@, peer@, sid, k.0) && old(s).files@[k.0].id@ == id
            && old(s).files@[k.0].full is Some,
        old(t).wf() && runs_at(old(t).files@, peer@, sid, k.1) && old(t).files@[k.1].id@ == id
            && old(t).files@[k.1].full is Some,
        old(u).wf() && runs_at(old(u).files@, peer@, sid, k.2) && old(u).files@[k.2].id@ == id
            && old(u).files@[k.2].full is Some,
        old(v).wf() && runs_at(old(v).files@, peer@, sid, k.3) && old(v).files@[k.3].id@ == id
            && old(v).files@[k.3].full is Some,
        !old(s).verify_fails@.contains_key(id),
        old(t).verify_fails == final(s).verify_fails,
        old(u).verify_fails == final(t).verify_fails,
        old(v).verify_fails == final(u).verify_fails,
        call_ensures(
            Assembly::settle,
            (s, peer, sid, false, VerifyResult::Mismatch { restart_from_zero: restart.0 }),
            r.0,
        ),
        call_ensures(
            Assembly::settle,
            (t, peer, sid, false, VerifyResult::Mismatch { restart_from_zero: restart.1 }),
            r.1,
        ),
        call_ensures(
            Assembly::settle,
            (u, peer, sid, false, VerifyResult::Mismatch { restart_from_zero: restart.2 }),
            r.2,
        ),
        call_ensures(
            Assembly::settle,
            (v, peer, sid, false, VerifyResult::Mismatch { restart_from_zero: restart.3 }),
            r.3,
        ),
    ensures
        r.0 is Refetch && r.0->attempt == 1,
        r.1 is Refetch && r.1->attempt == 2,
        r.2 is Refetch && r.2->attempt == 3,
        r.3 is GiveUp,
        !final(v).verify_fails@.contains_key(id),
{
    only_one_runs(*old(s), peer@, sid, k.0);
    only_one_runs(*old(t), peer@, sid, k.1);
    only_one_runs(*old(u), peer@, sid, k.2);
    only_one_runs(*old(v), peer@, sid, k.3);
}

/// A file counts as delivered once it is in place, and is acked then if its digest was compared.
pub proof fn what_is_in_place_counts(a: &mut Assembly, in_place: bool, ack: bool, r: bool)
    requires
        call_ensures(Assembly::placed, (a, in_place, ack), r),
    ensures
        in_place ==> final(a).completed == old(a).completed + 1,
        !in_place ==> final(a).completed == old(a).completed && !r,
        r <==> in_place && ack,
        final(a).files == old(a).files,
{
}

proof fn kept_holds(s: Seq<IncomingFile>, keep: spec_fn(IncomingFile) -> bool)
    ensures
        forall|k: int|
            0 <= k < s.len() && keep(#[trigger] s[k]) ==> assembly::kept(s, keep).contains(s[k]),
        forall|i: int|
            0 <= i < assembly::kept(s, keep).len() ==> keep(#[trigger] assembly::kept(s, keep)[i])
                && s.contains(assembly::kept(s, keep)[i]),
    decreases s.len(),
{
    if s.len() > 0 {
        let t = s.subrange(1, s.len() as int);
        kept_holds(t, keep);
        let was = assembly::kept(t, keep);
        let now = assembly::kept(s, keep);
        let shift = now.len() - was.len();
        assert forall|k: int| 0 <= k < s.len() && keep(#[trigger] s[k]) implies now.contains(s[k]) by {
            if k == 0 {
                assert(now[0] == s[0]);
            } else {
                assert(t[k - 1] == s[k]);
                assert(was.contains(t[k - 1]));
                let i = was.index_of(t[k - 1]);
                assert(now[i + shift] == s[k]);
            }
        }
        assert forall|i: int| 0 <= i < now.len() implies keep(#[trigger] now[i]) && s.contains(now[i]) by {
            if i < shift {
                assert(now[i] == s[0]);
            } else {
                assert(now[i] == was[i - shift]);
                assert(t.contains(was[i - shift]));
                let j = t.index_of(was[i - shift]);
                assert(s[j + 1] == now[i]);
            }
        }
    }
}

/// The files of a peer whose link is gone leave, and no others.
pub proof fn files_leave_with_their_peer(a: &mut Assembly, peer: &str, k: int)
    requires
        call_ensures(Assembly::drop_peer, (a, peer), ()),
        0 <= k < old(a).files@.len(),
    ensures
        old(a).files@[k].peer@ != peer@ ==> final(a).files@.contains(old(a).files@[k]),
        forall|i: int|
            0 <= i < final(a).files@.len() ==> (#[trigger] final(a).files@[i]).peer@ != peer@
                && old(a).files@.contains(final(a).files@[i]),
        final(a).completed == old(a).completed,
        final(a).verify_fails == old(a).verify_fails,
{
    kept_holds(old(a).files@, assembly::not_from(peer@));
}

/// Parking leaves no file, and forgets neither what was delivered nor what failed.
pub proof fn parking_leaves_no_file(a: &mut Assembly)
    requires
        call_ensures(Assembly::park_all, (a,), ()),
    ensures
        final(a).files@.len() == 0,
        final(a).completed == old(a).completed,
        final(a).verify_fails == old(a).verify_fails,
{
}

/// A stream into a partial file keeps it as long as its link flows; otherwise it gives way, and
/// streams into other files stay.
pub proof fn only_a_flowing_stream_keeps_its_part(
    a: &mut Assembly,
    part: &str,
    flowing: Vec<String>,
    r: bool,
    k: int,
    j: int,
)
    requires
        call_ensures(Assembly::make_way, (a, part, &flowing), r),
        0 <= k < old(a).files@.len(),
        0 <= j < flowing@.len(),
    ensures
        old(a).files@[k].part_path@ == part@ && flowing@[j]@ == old(a).files@[k].peer@ ==> !r,
        !r ==> final(a).files@ == old(a).files@ && exists|i: int, f: int|
            0 <= i < old(a).files@.len() && 0 <= f < flowing@.len() && (
            #[trigger] old(a).files@[i]).part_path@ == part@ && (#[trigger] flowing@[f])@ == old(
                a,
            ).files@[i].peer@,
        r && old(a).files@[k].part_path@ != part@ ==> final(a).files@.contains(old(a).files@[k]),
        r ==> forall|i: int|
            0 <= i < final(a).files@.len() ==> (#[trigger] final(a).files@[i]).part_path@ != part@,
{
    kept_holds(old(a).files@, assembly::not_into(part@));
    if old(a).files@[k].part_path@ == part@ && flowing@[j]@ == old(a).files@[k].peer@ {
        assert(keyed::listed(flowing@, old(a).files@[k].peer@));
        assert(assembly::flowing_into(old(a).files@, part@, flowing@));
    }
    if !r {
        let i = choose|i: int|
            0 <= i < old(a).files@.len() && (#[trigger] old(a).files@[i]).part_path@ == part@
                && keyed::listed(flowing@, old(a).files@[i].peer@);
        let f = choose|f: int|
            0 <= f < flowing@.len() && (#[trigger] flowing@[f])@ == old(a).files@[i].peer@;
        assert(old(a).files@[i].part_path@ == part@ && flowing@[f]@ == old(a).files@[i].peer@);
    }
}

/// Every byte of this file was written and no write is under way.
pub open spec fn is_whole(f: IncomingFile) -> bool {
    &&& f.size > 0
    &&& f.inflight == 0
    &&& f.received >= f.size
    &&& forall|b: int| 0 <= b < f.size ==> coverage::covers(f.ranges@, b)
}

/// Such a file arrives over this stream.
pub open spec fn whole_over(files: Seq<IncomingFile>, x: (Seq<char>, u32)) -> bool {
    exists|k: int|
        0 <= k < files.len() && is_whole(#[trigger] files[k]) && x == (files[k].peer@, files[k].sid)
}

proof fn stranded_by_file(files: Seq<IncomingFile>)
    ensures
        forall|k: int|
            0 <= k < files.len() && is_whole(#[trigger] files[k]) ==> assembly::stranded_of(
                files,
            ).contains((files[k].peer@, files[k].sid)),
        forall|i: int|
            0 <= i < assembly::stranded_of(files).len() ==> whole_over(
                files,
                #[trigger] assembly::stranded_of(files)[i],
            ),
    decreases files.len(),
{
    if files.len() > 0 {
        let short = files.drop_last();
        stranded_by_file(short);
        let was = assembly::stranded_of(short);
        let now = assembly::stranded_of(files);
        assert forall|k: int| 0 <= k < files.len() && is_whole(#[trigger] files[k]) implies now.contains(
            (files[k].peer@, files[k].sid),
        ) by {
            if k < short.len() {
                assert(short[k] == files[k]);
                let x = (files[k].peer@, files[k].sid);
                assert(was.contains(x));
                assert(now[was.index_of(x)] == x);
            } else {
                assert(now[now.len() - 1] == (files[k].peer@, files[k].sid));
            }
        }
        assert forall|i: int| 0 <= i < now.len() implies whole_over(files, #[trigger] now[i]) by {
            if i < was.len() {
                assert(now[i] == was[i]);
                assert(whole_over(short, was[i]));
                let k = choose|k: int|
                    0 <= k < short.len() && is_whole(#[trigger] short[k]) && was[i] == (
                        short[k].peer@,
                        short[k].sid,
                    );
                assert(short[k] == files[k]);
            } else {
                assert(is_whole(files[files.len() - 1]));
            }
        }
    }
}

/// A file all of whose bytes were written is noticed though nobody said that its stream is over;
/// no other file is.
pub proof fn a_whole_file_is_noticed(a: Assembly, r: Vec<(String, u32)>, k: int, i: int)
    requires
        call_ensures(Assembly::stranded, (&a,), r),
        0 <= k < a.files@.len(),
    ensures
        is_whole(a.files@[k]) ==> exists|j: int|
            0 <= j < r@.len() && (#[trigger] r@[j]).0@ == a.files@[k].peer@ && r@[j].1
                == a.files@[k].sid,
        0 <= i < r@.len() ==> exists|j: int|
            0 <= j < a.files@.len() && is_whole(#[trigger] a.files@[j]) && a.files@[j].peer@
                == r@[i].0@ && a.files@[j].sid == r@[i].1,
{
    stranded_by_file(a.files@);
    let s = assembly::streams_of(r@);
    if is_whole(a.files@[k]) {
        let x = (a.files@[k].peer@, a.files@[k].sid);
        assert(s.contains(x));
        let j = s.index_of(x);
        assert(s[j] == (r@[j].0@, r@[j].1));
    }
    if 0 <= i < r@.len() {
        assert(s[i] == (r@[i].0@, r@[i].1));
        assert(whole_over(a.files@, assembly::stranded_of(a.files@)[i]));
    }
}

/// Once something was delivered, the peers of all files that arrive are stayed in touch with; before
/// that, none is.
pub proof fn in_touch_after_a_delivery(a: Assembly, r: Vec<String>, k: int)
    requires
        call_ensures(Assembly::in_touch, (&a,), r),
        0 <= k < a.files@.len(),
    ensures
        a.completed == 0 ==> r@.len() == 0,
        a.completed > 0 ==> r@.len() == a.files@.len() && r@[k]@ == a.files@[k].peer@,
{
    assert(frame::views(r@).len() == r@.len());
    if a.completed > 0 {
        assert(frame::views(r@)[k] == r@[k]@);
    }
}

/// Nothing arrives at first and nothing was delivered.
pub proof fn nothing_arrives_at_first(r: Assembly)
    requires
        call_ensures(Assembly::new, (), r),
    ensures
        r.files@.len() == 0,
        r.completed == 0,
        r.verify_fails@ == Map::<Seq<char>, u32>::empty(),
{
}

/// A file is found where it is, and nowhere else.
pub proof fn a_stream_is_found(a: Assembly, peer: &str, sid: u32, r: Option<usize>, k: int)
    requires
        call_ensures(Assembly::find, (&a, peer, sid), r),
    ensures
        runs_at(a.files@, peer@, sid, k) ==> r is Some,
        r matches Some(i) ==> runs_at(a.files@, peer@, sid, i as int),
{
    if runs_at(a.files@, peer@, sid, k) {
        assert(assembly::is_at(a.files@, peer@, sid, k));
    }
}

/// What was there of a file when it was begun is its start, and nothing else of it is.
pub proof fn a_file_begins_with_its_start(
    a: &mut Assembly,
    peer: &str,
    sid: u32,
    id: &str,
    name: &str,
    size: u64,
    offset: u64,
    part_path: &str,
    full: Option<String>,
    b: int,
)
    requires
        call_ensures(Assembly::begin, (a, peer, sid, id, name, size, offset, part_path, full), ()),
    ensures
        coverage::covered(final(a).files@.last().ranges@).contains(b) <==> 0 <= b < offset,
        final(a).files@.last().peer@ == peer@,
        final(a).files@.last().sid == sid,
        final(a).files@.last().name@ == name@,
        final(a).files@.last().size == size,
        final(a).files@.last().part_path@ == part_path@,
        final(a).files@.last().full == full,
        final(a).files@.last().ack_sid == 0,
{
    let r = final(a).files@.last().ranges@;
    if offset > 0 {
        assert(r[0] == (0u64, offset));
        assert(coverage::covers(r, b) <==> 0 <= b < offset);
    } else {
        assert(!coverage::covers(r, b));
    }
}

/// A stream is begun once: one that ran over the same stream gives way, and the files are one more
/// otherwise.
pub proof fn a_stream_takes_its_place(
    a: &mut Assembly,
    peer: &str,
    sid: u32,
    id: &str,
    name: &str,
    size: u64,
    offset: u64,
    part_path: &str,
    full: Option<String>,
    k: int,
)
    requires
        old(a).wf(),
        call_ensures(Assembly::begin, (a, peer, sid, id, name, size, offset, part_path, full), ()),
    ensures
        runs_at(old(a).files@, peer@, sid, k) ==> final(a).files@.len() == old(a).files@.len(),
        (forall|i: int| !#[trigger] runs_at(old(a).files@, peer@, sid, i)) ==> final(a).files@.len()
            == old(a).files@.len() + 1,
{
    let was = old(a).files@;
    let now = final(a).files@;
    if runs_at(was, peer@, sid, k) {
        only_one_runs(*old(a), peer@, sid, k);
        let i = choose|i: int| #[trigger]
            assembly::is_at(was, peer@, sid, i) && now.drop_last() == was.remove(i);
        assert(now.drop_last().len() == was.len() - 1);
    }
    if forall|i: int| !#[trigger] runs_at(was, peer@, sid, i) {
        assert(!assembly::arriving(was, peer@, sid)) by {
            assert forall|i: int| !#[trigger] assembly::is_at(was, peer@, sid, i) by {
                assert(!runs_at(was, peer@, sid, i));
            }
        }
        assert(now.drop_last().len() == was.len());
    }
}

/// A file that went to the standard output leaves, and is no failure of any; nor is one without a
/// digest.
pub proof fn what_is_not_compared_does_not_fail(
    a: &mut Assembly,
    peer: &str,
    sid: u32,
    to_stdout: bool,
    verdict: VerifyResult,
    r: Settled,
    k: int,
    j: int,
)
    requires
        old(a).wf(),
        runs_at(old(a).files@, peer@, sid, k),
        call_ensures(Assembly::settle, (a, peer, sid, to_stdout, verdict), r),
        to_stdout || old(a).files@[k].full is None,
        0 <= j < old(a).files@.len(),
        j != k,
    ensures
        final(a).verify_fails == old(a).verify_fails,
        final(a).files@.len() == old(a).files@.len() - 1,
        final(a).files@[if j < k {
            j
        } else {
            j - 1
        }] == old(a).files@[j],
{
    only_one_runs(*old(a), peer@, sid, k);
}

/// Making way, and counting what is in place, touch nothing else.
pub proof fn making_way_touches_nothing_else(
    a: &mut Assembly,
    b: &mut Assembly,
    part: &str,
    flowing: Vec<String>,
    r: bool,
    in_place: bool,
    ack: bool,
    s: bool,
)
    requires
        call_ensures(Assembly::make_way, (a, part, &flowing), r),
        call_ensures(Assembly::placed, (b, in_place, ack), s),
    ensures
        final(a).completed == old(a).completed,
        final(a).verify_fails == old(a).verify_fails,
        final(b).verify_fails == old(b).verify_fails,
        final(b).files == old(b).files,
        forall|i: int|
            0 <= i < final(a).files@.len() ==> old(a).files@.contains(#[trigger] final(a).files@[i]),
{
    kept_holds(old(a).files@, assembly::not_into(part@));
    if !r {
        assert forall|i: int| 0 <= i < final(a).files@.len() implies old(a).files@.contains(
            #[trigger] final(a).files@[i],
        ) by {
            assert(old(a).files@[i] == final(a).files@[i]);
        }
    }
}

/// What `Assembly::chunk` does not concern, of what has arrived, stays as it is.
pub proof fn what_chunk_leaves_alone(
    q: &mut Assembly,
    peer: &str,
    sid: u32,
    offset: Option<u64>,
    r: ChunkStep,
)
    requires
        call_ensures(Assembly::chunk, (q, peer, sid, offset), r),
    ensures
        final(q).verify_fails == old(q).verify_fails,
        final(q).completed == old(q).completed,
{
}

/// What `Assembly::written` does not concern, of what has arrived, stays as it is.
pub proof fn what_written_leaves_alone(
    q: &mut Assembly,
    peer: &str,
    sid: u32,
    pos: u64,
    len: u64,
    wrote: bool,
    r: bool,
)
    requires
        call_ensures(Assembly::written, (q, peer, sid, pos, len, wrote), r),
    ensures
        final(q).verify_fails == old(q).verify_fails,
        final(q).completed == old(q).completed,
{
}

/// What `Assembly::file_end` does not concern, of what has arrived, stays as it is.
pub proof fn what_file_end_leaves_alone(
    q: &mut Assembly,
    peer: &str,
    sid: u32,
    r: EndStep,
)
    requires
        call_ensures(Assembly::file_end, (q, peer, sid), r),
    ensures
        final(q).verify_fails == old(q).verify_fails,
        final(q).completed == old(q).completed,
{
}

/// What `Assembly::placed` does not concern, of what has arrived, stays as it is.
pub proof fn what_placed_leaves_alone(
    q: &mut Assembly,
    in_place: bool,
    ack: bool,
    r: bool,
)
    requires
        call_ensures(Assembly::placed, (q, in_place, ack), r),
    ensures
        final(q).files == old(q).files,
        final(q).verify_fails == old(q).verify_fails,
{
}

/// What `Assembly::make_way` does not concern, of what has arrived, stays as it is.
pub proof fn what_make_way_leaves_alone(
    q: &mut Assembly,
    part: &str,
    flowing: Vec<String>,
    r: bool,
)
    requires
        call_ensures(Assembly::make_way, (q, part, &flowing), r),
    ensures
        final(q).verify_fails == old(q).verify_fails,
        final(q).completed == old(q).completed,
{
}

/// What `Assembly::drop_peer` does not concern, of what has arrived, stays as it is.
pub proof fn what_drop_peer_leaves_alone(
    q: &mut Assembly,
    peer: &str,
)
    requires
        call_ensures(Assembly::drop_peer, (q, peer), ()),
    ensures
        final(q).verify_fails == old(q).verify_fails,
        final(q).completed == old(q).completed,
{
}

/// What `Assembly::park_all` does not concern, of what has arrived, stays as it is.
pub proof fn what_park_all_leaves_alone(
    q: &mut Assembly,
)
    requires
        call_ensures(Assembly::park_all, (q,), ()),
    ensures
        final(q).verify_fails == old(q).verify_fails,
        final(q).completed == old(q).completed,
{
}

/// What `Assembly::begin` does not concern, of what has arrived, stays as it is.
pub proof fn what_begin_leaves_alone(
    q: &mut Assembly,
    peer: &str,
    sid: u32,
    id: &str,
    name: &str,
    size: u64,
    offset: u64,
    part_path: &str,
    full: Option<String>,
)
    requires
        call_ensures(Assembly::begin, (q, peer, sid, id, name, size, offset, part_path, full), ()),
    ensures
        final(q).verify_fails == old(q).verify_fails,
        final(q).completed == old(q).completed,
{
}

} // verus!
