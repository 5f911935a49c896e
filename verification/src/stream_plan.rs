//! How the bytes of a file are spread over several connections, and in what pieces each
//! connection carries its share.

use vstd::prelude::*;

verus! {

/// A stretch of a file that one connection carries: the bytes from `start` up to `end`.
#[derive(Clone, Copy, Debug, PartialEq, Eq, Structural)]
pub struct Span {
    /// Which connection.
    pub lane: usize,
    pub start: u64,
    pub end: u64,
}

/// How many connections carry a file over `lanes` of them: without any there is still the
/// one that the stream began on.
pub open spec fn lane_count(lanes: usize) -> usize {
    if lanes == 0 {
        1
    } else {
        lanes
    }
}

/// What is left of a file of `size` bytes after the first `offset`.
pub open spec fn remaining(offset: u64, size: u64) -> nat {
    if offset <= size {
        (size - offset) as nat
    } else {
        0
    }
}

/// What each of `lanes` connections carries of the bytes from `offset` up to `size`: the
/// whole part of an equal share each, in the order of the file, and the last one what is
/// over. Where there are fewer bytes than connections the last one carries all of them.
pub open spec fn spans_of(offset: u64, size: u64, lanes: usize) -> Seq<Span> {
    let num = lane_count(lanes) as int;
    let per = remaining(offset, size) as int / num;
    if offset >= size {
        Seq::empty()
    } else if per == 0 {
        seq![Span { lane: (num - 1) as usize, start: offset, end: size }]
    } else {
        Seq::new(
            num as nat,
            |i: int|
                Span {
                    lane: i as usize,
                    start: (offset + i * per) as u64,
                    end: if i == num - 1 {
                        size
                    } else {
                        (offset + (i + 1) * per) as u64
                    },
                },
        )
    }
}

proof fn shares_fit(left: int, num: int, i: int)
    requires
        0 <= left,
        0 < num,
        0 <= i <= num,
    ensures
        0 <= left / num,
        0 <= i * (left / num) <= left,
        (i + 1) * (left / num) == i * (left / num) + left / num,
{
    let per = left / num;
    assert(0 <= per && num * per <= left) by (nonlinear_arith)
        requires
            0 <= left,
            0 < num,
            per == left / num,
    ;
    assert(0 <= i * per <= num * per) by (nonlinear_arith)
        requires
            0 <= per,
            0 <= i <= num,
    ;
    assert((i + 1) * per == i * per + per) by (nonlinear_arith);
}

/// Spread the bytes from `offset` up to `size` over `lanes` connections.
pub fn spread(offset: u64, size: u64, lanes: usize) -> (r: Vec<Span>)
    ensures
        r@ == spans_of(offset, size, lanes),
{
    let num: usize = if lanes == 0 {
        1
    } else {
        lanes
    };
    let left: u64 = if offset <= size {
        size - offset
    } else {
        0
    };
    let per: u64 = left / num as u64;
    let mut out: Vec<Span> = Vec::new();
    let mut i: usize = 0;
    proof {
        assert(0 * (per as int) == 0);
    }
    while i < num
        invariant
            i <= num,
            num == lane_count(lanes),
            left == remaining(offset, size),
            per as int == left as int / num as int,
            offset >= size ==> out@.len() == 0,
            offset < size && per == 0 ==> out@ == if i < num {
                Seq::<Span>::empty()
            } else {
                spans_of(offset, size, lanes)
            },
            offset < size && per > 0 ==> out@ == spans_of(offset, size, lanes).take(i as int),
        decreases num - i,
    {
        proof {
            shares_fit(left as int, num as int, i as int);
            shares_fit(left as int, num as int, i + 1);
            assert(i * per == i as int * per as int);
        }
        let start: u64 = offset + i as u64 * per;
        let end: u64 = if i == num - 1 {
            size
        } else {
            start + per
        };
        if start < end {
            out.push(Span { lane: i, start, end });
        }
        proof {
            if offset < size && per > 0 {
                let all = spans_of(offset, size, lanes);
                assert(start < end) by {
                    if i == num - 1 {
                        assert(i * per + per <= left);
                    }
                }
                assert(all[i as int] == out@[i as int]);
                assert(out@ =~= all.take(i + 1));
            } else if offset < size {
                assert(i * per == 0) by (nonlinear_arith)
                    requires
                        per == 0,
                ;
                assert(out@ =~= if i + 1 < num {
                    Seq::<Span>::empty()
                } else {
                    spans_of(offset, size, lanes)
                });
            }
        }
        i += 1;
    }
    proof {
        let all = spans_of(offset, size, lanes);
        if offset < size && per > 0 {
            assert(all.take(num as int) =~= all);
        } else if offset >= size {
            assert(out@ =~= all);
        }
    }
    out
}

/// The spans follow one another without a gap, from `offset` up to `size`, and none of them
/// is empty.
pub proof fn spans_join(offset: u64, size: u64, lanes: usize)
    ensures
        ({
            let s = spans_of(offset, size, lanes);
            &&& s.len() == 0 <==> offset >= size
            &&& s.len() > 0 ==> s[0].start == offset && s.last().end == size
            &&& forall|k: int| 0 <= k < s.len() ==> (#[trigger] s[k]).start < s[k].end
            &&& forall|k: int| 0 <= k < s.len() - 1 ==> (#[trigger] s[k]).end == s[k + 1].start
            &&& forall|k: int| 0 <= k < s.len() ==> (#[trigger] s[k]).lane < lane_count(lanes)
        }),
{
    let s = spans_of(offset, size, lanes);
    let num = lane_count(lanes) as int;
    let left = remaining(offset, size) as int;
    let per = left / num;
    if offset < size && per > 0 {
        assert(0 * per == 0);
        assert forall|k: int| 0 <= k < s.len() implies (#[trigger] s[k]).start < s[k].end && (k
            < s.len() - 1 ==> s[k].end == s[k + 1].start) by {
            shares_fit(left, num, k);
            shares_fit(left, num, k + 1);
        }
    }
}

/// Every byte that is left of the file lies in exactly one span, so the spans together carry
/// each of them once, however many connections there are.
pub proof fn each_byte_is_carried_once(offset: u64, size: u64, lanes: usize, p: u64)
    requires
        offset <= p < size,
    ensures
        exists|k: int|
            0 <= k < spans_of(offset, size, lanes).len() && (#[trigger] spans_of(
                offset,
                size,
                lanes,
            )[k]).start <= p < spans_of(offset, size, lanes)[k].end,
        forall|j: int, k: int|
            0 <= j < k < spans_of(offset, size, lanes).len() ==> (#[trigger] spans_of(
                offset,
                size,
                lanes,
            )[j]).end <= (#[trigger] spans_of(offset, size, lanes)[k]).start,
{
    let s = spans_of(offset, size, lanes);
    spans_join(offset, size, lanes);
    span_holding(s, p, s.len() - 1);
    assert forall|j: int, k: int| 0 <= j < k < s.len() implies (#[trigger] s[j]).end <= (
    #[trigger] s[k]).start by {
        spans_in_order(s, j, k);
    }
}

/// No span reaches outside the bytes that are left.
pub proof fn nothing_else_is_carried(offset: u64, size: u64, lanes: usize, k: int)
    requires
        0 <= k < spans_of(offset, size, lanes).len(),
    ensures
        offset <= spans_of(offset, size, lanes)[k].start,
        spans_of(offset, size, lanes)[k].end <= size,
{
    let s = spans_of(offset, size, lanes);
    spans_join(offset, size, lanes);
    if k > 0 {
        spans_in_order(s, 0, k);
    }
    if k < s.len() - 1 {
        spans_in_order(s, k, s.len() - 1);
    }
}

/// Each span begins where the one before it ends, and none is empty.
spec fn joined(s: Seq<Span>) -> bool {
    &&& forall|k: int| 0 <= k < s.len() ==> (#[trigger] s[k]).start < s[k].end
    &&& forall|k: int| 0 <= k < s.len() - 1 ==> (#[trigger] s[k]).end == s[k + 1].start
}

proof fn span_holding(s: Seq<Span>, p: u64, last: int)
    requires
        joined(s),
        0 <= last < s.len(),
        s[0].start <= p < s[last].end,
    ensures
        exists|k: int| 0 <= k < s.len() && (#[trigger] s[k]).start <= p < s[k].end,
    decreases last,
{
    if p < s[last].start {
        assert(s[last - 1].end == s[last].start);
        span_holding(s, p, last - 1);
    }
}

proof fn spans_in_order(s: Seq<Span>, j: int, k: int)
    requires
        joined(s),
        0 <= j < k < s.len(),
    ensures
        s[j].end <= s[k].start,
    decreases k - j,
{
    assert(s[k - 1].end == s[k].start);
    if j < k - 1 {
        spans_in_order(s, j, k - 1);
    }
}

/// How far one connection is with its span.
#[derive(Clone, Copy, Debug, PartialEq, Eq, Structural)]
pub struct Cursor {
    /// What comes next.
    pub pos: u64,
    /// Where the span ends.
    pub end: u64,
    /// How many pieces went out.
    pub pieces: u64,
}

/// What became of a read.
#[derive(Clone, Copy, Debug, PartialEq, Eq, Structural)]
pub enum Piece {
    /// The file gave nothing more: this connection is through.
    Over,
    /// Send the `len` bytes that were read as the bytes at `at`; `tick` where the progress
    /// shown is brought up to date after it.
    Send { at: u64, len: usize, tick: bool },
}

impl Cursor {
    /// It has not run over its end.
    pub open spec fn wf(self) -> bool {
        self.pos <= self.end
    }

    /// At the start of a span.
    pub fn new(s: &Span) -> (r: Cursor)
        requires
            s.start <= s.end,
        ensures
            r == (Cursor { pos: s.start, end: s.end, pieces: 0 }),
            r.wf(),
    {
        Cursor { pos: s.start, end: s.end, pieces: 0 }
    }

    /// How many bytes the next read asks for.
    pub open spec fn wanted(self, chunk: usize) -> int {
        if chunk <= self.end - self.pos {
            chunk as int
        } else {
            self.end - self.pos
        }
    }

    /// How many bytes the next read asks for: as many as fit in a piece and no more than
    /// the span has left.
    pub fn want(&self, chunk: usize) -> (r: usize)
        requires
            self.wf(),
        ensures
            r == self.wanted(chunk),
            r == 0 <==> chunk == 0 || self.pos == self.end,
    {
        let left: u64 = self.end - self.pos;
        if chunk as u64 <= left {
            chunk
        } else {
            left as usize
        }
    }

    /// A read gave `n` bytes.
    pub fn read(&mut self, n: usize) -> (r: Piece)
        requires
            old(self).wf(),
            n <= old(self).end - old(self).pos,
            old(self).pieces < u64::MAX,
        ensures
            final(self).wf(),
            final(self).end == old(self).end,
            n == 0 ==> r is Over && *final(self) == *old(self),
            n > 0 ==> final(self).pos == old(self).pos + n && final(self).pieces == old(self).pieces
                + 1 && r == (Piece::Send {
                at: old(self).pos,
                len: n,
                tick: final(self).pieces % 8 == 0 || final(self).pos == final(self).end,
            }),
    {
        if n == 0 {
            return Piece::Over;
        }
        let at: u64 = self.pos;
        self.pos = at + n as u64;
        self.pieces += 1;
        Piece::Send { at, len: n, tick: self.pieces % 8 == 0 || self.pos == self.end }
    }
}

} // verus!
