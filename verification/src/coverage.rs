//! Which bytes of a file have arrived: disjoint sorted intervals `[start, end)`.

use vstd::prelude::*;
use vstd::set_lib::*;

verus! {

/// The intervals are not empty, sorted, and neither overlap nor touch.
pub open spec fn disjoint_sorted(r: Seq<(u64, u64)>) -> bool {
    &&& forall|i: int| 0 <= i < r.len() ==> (#[trigger] r[i]).0 < r[i].1
    &&& forall|i: int, j: int| 0 <= i < j < r.len() ==> (#[trigger] r[i]).1 < (#[trigger] r[j]).0
}

/// Byte `b` lies in one of the intervals.
pub open spec fn covers(r: Seq<(u64, u64)>, b: int) -> bool {
    exists|i: int| 0 <= i < r.len() && (#[trigger] r[i]).0 <= b < r[i].1
}

/// The bytes that lie in one of the intervals.
pub open spec fn covered(r: Seq<(u64, u64)>) -> Set<int> {
    Set::new(|b: int| covers(r, b))
}

/// The length of the intervals together.
pub open spec fn measure(r: Seq<(u64, u64)>) -> int
    decreases r.len(),
{
    if r.len() == 0 {
        0
    } else {
        measure(r.drop_last()) + (r.last().1 - r.last().0)
    }
}

/// The length of disjoint intervals together is the number of bytes that they cover,
/// and is no more than where the last of them ends.
pub proof fn measure_counts_bytes(r: Seq<(u64, u64)>)
    requires
        disjoint_sorted(r),
    ensures
        covered(r).finite(),
        covered(r).len() == measure(r),
        0 <= measure(r),
        r.len() > 0 ==> measure(r) <= r.last().1,
        r.len() == 0 ==> measure(r) == 0,
    decreases r.len(),
{
    if r.len() == 0 {
        assert(covered(r) =~= Set::empty());
    } else {
        let rest = r.drop_last();
        let (lo, hi) = (r.last().0 as int, r.last().1 as int);
        assert(disjoint_sorted(rest)) by {
            assert(forall|i: int| 0 <= i < rest.len() ==> rest[i] == r[i]);
        }
        measure_counts_bytes(rest);
        let last = set_int_range(lo, hi);
        lemma_int_range(lo, hi);
        assert(covered(r) =~= covered(rest) + last) by {
            assert forall|b: int| covers(r, b) == (covers(rest, b) || last.contains(b)) by {
                if covers(r, b) {
                    let i = choose|i: int| 0 <= i < r.len() && (#[trigger] r[i]).0 <= b < r[i].1;
                    if i < rest.len() {
                        assert(rest[i] == r[i]);
                    }
                }
                if covers(rest, b) {
                    let i = choose|i: int|
                        0 <= i < rest.len() && (#[trigger] rest[i]).0 <= b < rest[i].1;
                    assert(r[i] == rest[i]);
                }
                if last.contains(b) {
                    assert(r[r.len() - 1].0 <= b < r[r.len() - 1].1);
                }
            }
        }
        assert(covered(rest).disjoint(last)) by {
            assert forall|b: int| covers(rest, b) implies !last.contains(b) by {
                let i = choose|i: int|
                    0 <= i < rest.len() && (#[trigger] rest[i]).0 <= b < rest[i].1;
                assert(rest[i] == r[i]);
                assert(r[i].1 < r[r.len() - 1].0);
            }
        }
        lemma_set_disjoint_lens(covered(rest), last);
        if rest.len() > 0 {
            assert(rest.last() == r[r.len() - 2]);
            assert(r[r.len() - 2].1 < r[r.len() - 1].0);
        }
    }
}

/// Recording more never counts fewer bytes.
pub proof fn measure_is_monotone(a: Seq<(u64, u64)>, b: Seq<(u64, u64)>)
    requires
        disjoint_sorted(a),
        disjoint_sorted(b),
        forall|x: int| covers(a, x) ==> covers(b, x),
    ensures
        measure(a) <= measure(b),
{
    measure_counts_bytes(a);
    measure_counts_bytes(b);
    lemma_len_subset(covered(a), covered(b));
}

proof fn covers_push(r: Seq<(u64, u64)>, x: (u64, u64), b: int)
    ensures
        covers(r.push(x), b) == (covers(r, b) || x.0 <= b < x.1),
{
    let p = r.push(x);
    if covers(r, b) {
        let i = choose|i: int| 0 <= i < r.len() && (#[trigger] r[i]).0 <= b < r[i].1;
        assert(p[i] == r[i]);
    }
    if x.0 <= b < x.1 {
        assert(p[r.len() as int] == x);
    }
    if covers(p, b) {
        let i = choose|i: int| 0 <= i < p.len() && (#[trigger] p[i]).0 <= b < p[i].1;
        if i < r.len() {
            assert(r[i] == p[i]);
        }
    }
}

/// The number of bytes in the intervals.
pub fn total(r: &Vec<(u64, u64)>) -> (n: u64)
    requires
        disjoint_sorted(r@),
    ensures
        n == measure(r@),
{
    let mut n: u64 = 0;
    let mut i: usize = 0;
    while i < r.len()
        invariant
            i <= r.len(),
            disjoint_sorted(r@),
            n == measure(r@.subrange(0, i as int)),
        decreases r.len() - i,
    {
        proof {
            let upto = r@.subrange(0, i + 1);
            assert(upto.drop_last() =~= r@.subrange(0, i as int));
            assert(disjoint_sorted(upto)) by {
                assert(forall|k: int| 0 <= k < upto.len() ==> upto[k] == r@[k]);
            }
            measure_counts_bytes(upto);
        }
        n = n + (r[i].1 - r[i].0);
        i += 1;
    }
    proof {
        assert(r@.subrange(0, r@.len() as int) =~= r@);
    }
    n
}

/// The intervals put out so far, with the one still to be placed, cover what the
/// intervals seen so far and the new one cover.
spec fn merged(
    out: Seq<(u64, u64)>,
    placed: bool,
    lo: int,
    hi: int,
    seen: Seq<(u64, u64)>,
    pos: int,
    len: int,
) -> bool {
    forall|b: int|
        (covers(out, b) || (!placed && lo <= b < hi)) == (#[trigger] covers(seen, b) || pos <= b < pos
            + len)
}

proof fn merged_at(
    out: Seq<(u64, u64)>,
    placed: bool,
    lo: int,
    hi: int,
    seen: Seq<(u64, u64)>,
    pos: int,
    len: int,
    b: int,
)
    requires
        merged(out, placed, lo, hi, seen, pos, len),
    ensures
        (covers(out, b) || (!placed && lo <= b < hi)) == (covers(seen, b) || pos <= b < pos + len),
{
}

/// One more interval is seen. It is put out as it is; or after the one still to be placed, which
/// it lies behind; or it meets that one and widens it.
proof fn merged_next(
    o: Seq<(u64, u64)>,
    out: Seq<(u64, u64)>,
    placed0: bool,
    placed: bool,
    x0: (u64, u64),
    x: (u64, u64),
    before: Seq<(u64, u64)>,
    y: (u64, u64),
    pos: int,
    len: int,
)
    requires
        merged(o, placed0, x0.0 as int, x0.1 as int, before, pos, len),
        ({
            ||| placed == placed0 && x == x0 && out == o.push(y)
            ||| !placed0 && placed && out == o.push(x0).push(y)
            ||| !placed0 && !placed && out == o && y.0 <= x0.1 && x0.0 <= y.1 && x0.0 < x0.1 && y.0
                < y.1 && x.0 == (if y.0 < x0.0 {
                y.0
            } else {
                x0.0
            }) && x.1 == (if y.1 > x0.1 {
                y.1
            } else {
                x0.1
            })
        }),
    ensures
        merged(out, placed, x.0 as int, x.1 as int, before.push(y), pos, len),
{
    let seen = before.push(y);
    assert forall|b: int|
        (covers(out, b) || (!placed && x.0 <= b < x.1)) == (#[trigger] covers(seen, b) || pos <= b
            < pos + len) by {
        merged_at(o, placed0, x0.0 as int, x0.1 as int, before, pos, len, b);
        covers_push(before, y, b);
        covers_push(o, y, b);
        covers_push(o, x0, b);
        covers_push(o.push(x0), y, b);
    }
}

/// Record that the bytes from `pos` on, `len` of them, have arrived. Gives the number
/// of bytes that are new and the number of bytes in all.
pub fn record_range(r: &mut Vec<(u64, u64)>, pos: u64, len: u64) -> (n: (u64, u64))
    requires
        disjoint_sorted(old(r)@),
        pos + len <= u64::MAX,
    ensures
        disjoint_sorted(final(r)@),
        forall|b: int|
            #[trigger] covers(final(r)@, b) == (covers(old(r)@, b) || pos <= b < pos + len),
        n.1 == measure(final(r)@),
        n.0 == measure(final(r)@) - measure(old(r)@),
{
    let was: u64 = total(r);
    if len == 0 {
        return (0, was);
    }
    let mut lo: u64 = pos;
    let mut hi: u64 = pos + len;
    let mut out: Vec<(u64, u64)> = Vec::new();
    let mut placed: bool = false;
    let mut i: usize = 0;
    let ghost old_r = r@;
    while i < r.len()
        invariant
            i <= r.len(),
            r@ == old_r,
            disjoint_sorted(old_r),
            disjoint_sorted(out@),
            lo < hi,
            merged(out@, placed, lo as int, hi as int, old_r.subrange(0, i as int), pos as int, len as int),
            !placed ==> forall|k: int| 0 <= k < out.len() ==> (#[trigger] out[k]).1 < lo,
            i < r.len() ==> forall|k: int| 0 <= k < out.len() ==> (#[trigger] out[k]).1 < old_r[i as int].0,
        decreases r.len() - i,
    {
        let (s, e) = r[i];
        let ghost before = old_r.subrange(0, i as int);
        let ghost (x0, placed0) = ((lo, hi), placed);
        let ghost o = out@;
        proof {
            assert(old_r.subrange(0, i + 1) =~= before.push((s, e)));
            assert(s < e);
            if i + 1 < old_r.len() {
                assert(e < old_r[i + 1].0);
            }
        }
        if placed || e < lo {
            out.push((s, e));
        } else if s > hi {
            out.push((lo, hi));
            out.push((s, e));
            placed = true;
        } else {
            if s < lo {
                lo = s;
            }
            if e > hi {
                hi = e;
            }
        }
        i += 1;
        proof {
            merged_next(
                o,
                out@,
                placed0,
                placed,
                x0,
                (lo, hi),
                before,
                (s, e),
                pos as int,
                len as int,
            );
        }
    }
    let ghost o = out@;
    if !placed {
        out.push((lo, hi));
    }
    proof {
        assert(old_r.subrange(0, old_r.len() as int) =~= old_r);
        assert forall|b: int| #[trigger] covers(out@, b) == (covers(old_r, b) || pos <= b < pos + len) by {
            merged_at(o, placed, lo as int, hi as int, old_r, pos as int, len as int, b);
            covers_push(o, (lo, hi), b);
        }
        measure_is_monotone(old_r, out@);
    }
    let now: u64 = total(&out);
    *r = out;
    (now - was, now)
}

/// Every byte below `size` has arrived.
pub open spec fn complete(r: Seq<(u64, u64)>, size: int) -> bool {
    forall|b: int| 0 <= b < size ==> covers(r, b)
}

/// Whether the intervals cover all of a file of `size` bytes.
pub fn coverage_complete(r: &Vec<(u64, u64)>, size: u64) -> (c: bool)
    requires
        disjoint_sorted(r@),
    ensures
        c == complete(r@, size as int),
{
    if size == 0 {
        return true;
    }
    let c: bool = r.len() > 0 && r[0].0 == 0 && r[0].1 >= size;
    proof {
        if c {
            assert forall|b: int| 0 <= b < size implies covers(r@, b) by {
                assert(r@[0].0 <= b < r@[0].1);
            }
        } else {
            if covers(r@, 0) {
                let i = choose|i: int| 0 <= i < r@.len() && (#[trigger] r@[i]).0 <= 0 < r@[i].1;
                if i > 0 {
                    assert(r@[0].1 < r@[i].0);
                }
                let b = r@[0].1 as int;
                assert(b < size);
                if covers(r@, b) {
                    let j = choose|j: int| 0 <= j < r@.len() && (#[trigger] r@[j]).0 <= b < r@[j].1;
                    if j > 0 {
                        assert(r@[0].1 < r@[j].0);
                    }
                }
            }
            assert(!complete(r@, size as int));
        }
    }
    c
}

/// A file whose bytes have all arrived has at least as many bytes recorded as it is
/// long; where nothing lies past its end, exactly as many.
pub proof fn complete_means_size_bytes(r: Seq<(u64, u64)>, size: int)
    requires
        disjoint_sorted(r),
        complete(r, size),
        0 <= size,
    ensures
        measure(r) >= size,
        (forall|b: int| covers(r, b) ==> 0 <= b < size) ==> measure(r) == size,
{
    measure_counts_bytes(r);
    lemma_int_range(0, size);
    lemma_len_subset(set_int_range(0, size), covered(r));
    if forall|b: int| covers(r, b) ==> 0 <= b < size {
        assert(covered(r) =~= set_int_range(0, size));
    }
}

/// The converse: as many bytes recorded as the file is long, none of them past its
/// end, leave no gap.
pub proof fn size_bytes_mean_complete(r: Seq<(u64, u64)>, size: int)
    requires
        disjoint_sorted(r),
        0 <= size,
        measure(r) == size,
        forall|b: int| covers(r, b) ==> 0 <= b < size,
    ensures
        complete(r, size),
{
    measure_counts_bytes(r);
    lemma_int_range(0, size);
    assert(covered(r).subset_of(set_int_range(0, size)));
    lemma_subset_equality(covered(r), set_int_range(0, size));
    assert forall|b: int| 0 <= b < size implies covers(r, b) by {
        assert(set_int_range(0, size).contains(b));
        assert(covered(r).contains(b));
    }
}

} // verus!
