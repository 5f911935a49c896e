//! What everything rests on: clocks, written ranges, lanes, waits and numbers.

use vstd::prelude::*;
use vstd::string::*;
use crate::ack_window::{
    decide_ack_fallback, unconfirmed_error, unconfirmed_line, AckFallback, AckStep, AckWindow,
};
use crate::coverage;
use crate::coverage::{coverage_complete, record_range, total};
use crate::digest;
use crate::digest::{
    full_hash, full_hash_start, full_hash_step, head_hash, sha256_hex, HashStep,
};
use crate::frame;
use crate::frame::{count_at, flag_at, text_at, text_list};
use crate::hexadecimal;
use crate::hexadecimal::decode_exact;
use crate::keyed;
use crate::keyed::{lists, Keyed};
use crate::shared_defs::{after, elapsed, truncate};
use crate::stream_plan;
use crate::stream_plan::{spread, Cursor, Piece, Span};
use crate::text;
use crate::text::{
    before, cat, cat3, cat5, contains, ends_with, pad, parse_number, same, space, strip_prefix,
    to_ascii_lower, to_decimal, to_hexadecimal, trim,
};

verus! {

/// Time passes forward: what has elapsed and what was then make what is now, and a clock that
/// went back has measured nothing.
pub proof fn time_adds_up(now: u64, then: u64, r: u64)
    requires
        call_ensures(elapsed, (now, then), r),
    ensures
        then <= now ==> then + r == now,
        now <= then ==> r == 0,
{
}

/// A time limit lies as far ahead as it is long, or at the end of time where that is nearer.
pub proof fn limits_lie_ahead(now: u64, d: u64, r: u64, e: u64)
    requires
        call_ensures(after, (now, d), r),
        call_ensures(elapsed, (r, now), e),
    ensures
        now <= r,
        now + d <= u64::MAX ==> r == now + d && e == d,
        now + d > u64::MAX ==> r == u64::MAX,
{
}

/// A stream id is the low half of the number that carries it: small numbers are themselves, and
/// what is above the low half does not matter.
pub proof fn stream_ids_are_low_halves(n: u64, m: u64, r: u32, s: u32)
    requires
        call_ensures(truncate, (n,), r),
        call_ensures(truncate, (m,), s),
    ensures
        n < 0x1_0000_0000 ==> r == n,
        n >= 0x1_0000_0000 && m == n - 0x1_0000_0000 ==> r == s,
{
}

/// A range that is recorded is written from then on, what was written stays so, and nothing else
/// becomes so; the bytes that are new are those that the count grew by.
pub proof fn a_recorded_range_is_written(r: &mut Vec<(u64, u64)>, pos: u64, len: u64, n: (u64, u64), b: int)
    requires
        coverage::disjoint_sorted(old(r)@),
        call_ensures(record_range, (r, pos, len), n),
    ensures
        coverage::covered(final(r)@).contains(b) <==> coverage::covered(old(r)@).contains(b) || pos
            <= b < pos + len,
        coverage::covered(final(r)@).len() == n.1,
        coverage::covered(old(r)@).len() + n.0 == n.1,
{
    coverage::measure_counts_bytes(old(r)@);
    coverage::measure_counts_bytes(final(r)@);
}

/// A byte is written where one of the ranges holds it.
pub proof fn a_range_holds_its_bytes(r: Seq<(u64, u64)>, i: int, b: int)
    requires
        0 <= i < r.len(),
    ensures
        r[i].0 <= b < r[i].1 ==> coverage::covered(r).contains(b),
        r.len() == 1 ==> (coverage::covered(r).contains(b) <==> r[0].0 <= b < r[0].1),
        !coverage::covered(Seq::<(u64, u64)>::empty()).contains(b),
{
}

/// The count of written bytes is the number of bytes that are written, and a file is whole where
/// each of its bytes is.
pub proof fn written_bytes_are_counted(r: Vec<(u64, u64)>, n: u64, size: u64, c: bool)
    requires
        coverage::disjoint_sorted(r@),
        call_ensures(total, (&r,), n),
        call_ensures(coverage_complete, (&r, size), c),
    ensures
        coverage::covered(r@).len() == n,
        c <==> forall|b: int| 0 <= b < size ==> #[trigger] coverage::covered(r@).contains(b),
        c ==> n >= size,
{
    coverage::measure_counts_bytes(r@);
    if c {
        assert forall|b: int| 0 <= b < size implies #[trigger] coverage::covered(r@).contains(b) by {
            assert(coverage::covers(r@, b));
        }
        coverage::complete_means_size_bytes(r@, size as int);
    }
    if forall|b: int| 0 <= b < size ==> #[trigger] coverage::covered(r@).contains(b) {
        assert forall|b: int| 0 <= b < size implies coverage::covers(r@, b) by {
            assert(coverage::covered(r@).contains(b));
        }
    }
}

/// The lanes carry every byte from the offset to the end, each once and none else.
pub proof fn lanes_carry_each_byte_once(offset: u64, size: u64, lanes: usize, r: Vec<Span>, p: u64, j: int, k: int)
    requires
        call_ensures(spread, (offset, size, lanes), r),
        0 <= j < k < r@.len(),
    ensures
        offset <= p < size ==> exists|i: int|
            0 <= i < r@.len() && (#[trigger] r@[i]).start <= p < r@[i].end,
        r@[j].end <= r@[k].start,
        offset <= r@[j].start < r@[j].end <= size,
        offset <= r@[k].start < r@[k].end <= size,
        lanes > 0 ==> r@[k].lane < lanes,
        r@[j].lane < r@[k].lane,
{
    stream_plan::spans_join(offset, size, lanes);
    stream_plan::nothing_else_is_carried(offset, size, lanes, j);
    stream_plan::nothing_else_is_carried(offset, size, lanes, k);
    if offset <= p < size {
        stream_plan::each_byte_is_carried_once(offset, size, lanes, p);
    } else if offset < size {
        stream_plan::each_byte_is_carried_once(offset, size, lanes, offset);
    }
}

/// Where there is nothing left to send no lane carries anything, and where there is, the first
/// starts at the offset and the last ends with the file.
pub proof fn lanes_reach_from_end_to_end(offset: u64, size: u64, lanes: usize, r: Vec<Span>)
    requires
        call_ensures(spread, (offset, size, lanes), r),
    ensures
        offset >= size <==> r@.len() == 0,
        offset < size ==> r@[0].start == offset && r@[r@.len() - 1].end == size,
        offset < size && lanes <= 1 ==> r@.len() == 1 && r@[0].lane == 0,
        lanes > 0 && size - offset >= lanes ==> r@.len() == lanes,
{
    stream_plan::spans_join(offset, size, lanes);
    if lanes > 0 && size - offset >= lanes {
        assert((size - offset) / (lanes as int) >= 1) by (nonlinear_arith)
            requires
                lanes > 0,
                size - offset >= lanes,
        ;
    }
    if lanes <= 1 && offset < size {
        assert((size - offset) / 1 == size - offset);
    }
}

/// A lane reads on from where it stands, never past its end, and tells of every eighth piece and
/// of the last.
pub proof fn a_lane_reads_to_its_end(c: &mut Cursor, chunk: usize, want: usize, n: usize, r: Piece)
    requires
        old(c).wf(),
        call_ensures(Cursor::want, (&*old(c), chunk), want),
        n <= want,
        call_ensures(Cursor::read, (c, n), r),
    ensures
        want <= chunk,
        old(c).pos + want <= old(c).end,
        want < chunk ==> old(c).pos + want == old(c).end,
        r is Over <==> n == 0,
        final(c).pos == old(c).pos + n,
        final(c).end == old(c).end,
        r matches Piece::Send { at, len, tick } ==> at == old(c).pos && len == n && final(c).pieces
            == old(c).pieces + 1 && (tick <==> (old(c).pieces + 1) % 8 == 0 || old(c).pos + n == old(
            c,
        ).end),
{
}

/// A lane begins where its span does and ends there too.
pub proof fn a_lane_is_its_span(s: Span, r: Cursor)
    requires
        call_ensures(Cursor::new, (&s,), r),
    ensures
        r.pos == s.start,
        r.end == s.end,
        r.pieces == 0,
{
}

/// The receiver is asked again over a live link, once; otherwise the files are not confirmed.
pub proof fn asked_again_once_and_over_a_live_link(alive: bool, asked: bool, r: AckFallback)
    requires
        call_ensures(decide_ack_fallback, (alive, asked), r),
    ensures
        r is Reprobe <==> alive && !asked,
        r is FailUnconfirmed <==> !alive || asked,
{
}

/// While the word of the receiver is waited for: the first look begins the wait, nothing is done
/// before it is over, then the receiver is asked again where there is a link, and five seconds
/// later, or where there is no link, the files are not confirmed.
pub proof fn the_wait_runs_its_course(w: &mut AckWindow, now: u64, wait: u64, alive: bool, r: AckStep)
    requires
        call_ensures(AckWindow::step, (w, now, wait, true, false, alive), r),
    ensures
        old(w).sent_all_at is None ==> r.flush && final(w).sent_all_at == Some(now),
        old(w).sent_all_at matches Some(t) ==> !r.flush && final(w).sent_all_at == Some(t),
        (old(w).sent_all_at matches Some(t) && old(w).reprobed_at is None && t <= now) ==> {
            let t = old(w).sent_all_at->0;
            &&& now - t < wait ==> r.act is None && final(w).reprobed_at is None
            &&& now - t >= wait && alive ==> r.act == Some(AckFallback::Reprobe) && final(w).reprobed_at == Some(now)
            &&& now - t >= wait && !alive ==> r.act == Some(AckFallback::FailUnconfirmed)
        },
        (old(w).reprobed_at matches Some(t) && t <= now) ==> {
            let t = old(w).reprobed_at->0;
            &&& final(w).reprobed_at == Some(t)
            &&& now - t < 5_000_000_000 ==> r.act is None
            &&& now - t >= 5_000_000_000 ==> r.act == Some(AckFallback::FailUnconfirmed)
        },
{
}

/// Nothing is waited for before everything was sent, nor once everything is done.
pub proof fn nothing_to_wait_for(w: &mut AckWindow, now: u64, wait: u64, sent: bool, done: bool, alive: bool, r: AckStep)
    requires
        call_ensures(AckWindow::step, (w, now, wait, sent, done, alive), r),
        !sent || done,
    ensures
        *final(w) == *old(w),
        !r.flush,
        r.act is None,
{
}

/// What was not confirmed is said so, by name and by number, of which there is at least one.
pub proof fn the_unconfirmed_are_named(name: &str, l: String, n: usize, e: String)
    requires
        call_ensures(unconfirmed_line, (name,), l),
        call_ensures(unconfirmed_error, (n,), e),
    ensures
        l@ == "  "@ + name@
            + ": delivery not confirmed (no whole-file delivery-ack), the receiver may have gotten nothing; NOT marking complete"@,
        n > 0 ==> e@ == "delivery not confirmed: "@ + text::decimal(n as nat)
            + " file(s) sent but never delivery-acked by the receiver (treating as unconfirmed, not delivered)"@,
        n == 0 ==> e@ == "delivery not confirmed: "@ + text::decimal(1)
            + " file(s) sent but never delivery-acked by the receiver (treating as unconfirmed, not delivered)"@,
{
}

proof fn decimal_has_its_value(n: nat)
    ensures
        text::decimal(n).len() > 0,
        text::all_digits(text::decimal(n)),
        text::digits_value(text::decimal(n)) == n,
    decreases n,
{
    let d = text::decimal(n);
    if n < 10 {
        assert(d.drop_last() =~= Seq::<char>::empty());
        assert(text::digits_value(d.drop_last()) == 0);
    } else {
        decimal_has_its_value(n / 10);
        assert(d.drop_last() =~= text::decimal(n / 10));
        let m = text::decimal(n / 10);
        assert forall|i: int| 0 <= i < d.len() implies '0' <= #[trigger] d[i] <= '9' by {
            if i < m.len() {
                assert(d[i] == m[i]);
            }
        }
    }
}

/// A number that is written is read back as itself.
pub proof fn numbers_are_read_as_written(n: u64, t: String, s: &str, r: Option<u64>)
    requires
        call_ensures(to_decimal, (n,), t),
        s@ == t@,
        call_ensures(parse_number, (s,), r),
    ensures
        r == Some(n),
{
    decimal_has_its_value(n as nat);
    let d = text::decimal(n as nat);
    assert('0' <= d[0] <= '9');
    assert(text::without_plus(d) == d);
}

/// What is read as a number is made of digits, after a plus at most.
pub proof fn only_digits_are_a_number(s: &str, r: Option<u64>, i: int)
    requires
        call_ensures(parse_number, (s,), r),
        r is Some,
        0 <= i < s@.len(),
    ensures
        '0' <= s@[i] <= '9' || (i == 0 && s@[i] == '+' && s@.len() > 1),
{
    let d = text::without_plus(s@);
    if s@[0] == '+' {
        if i > 0 {
            assert(d[i - 1] == s@[i]);
        }
    } else {
        assert(d[i] == s@[i]);
    }
}

/// A text without its blanks at both ends begins and ends with none, and only blanks went.
pub proof fn only_blanks_are_trimmed(s: &str, r: &str)
    requires
        call_ensures(trim, (s,), r),
    ensures
        r@.len() > 0 ==> !text::is_space(r@[0]) && !text::is_space(r@[r@.len() - 1]),
        exists|i: int, j: int|
            0 <= i <= j <= s@.len() && r@ == #[trigger] s@.subrange(i, j) && (forall|k: int|
                0 <= k < i || j <= k < s@.len() ==> text::is_space(#[trigger] s@[k])),
        !text::is_space('a') && text::is_space(' '),
{
    let i = start_of(s@);
    let m = text::trimmed_start(s@);
    let n = end_of(m);
    assert(m.subrange(0, n) =~= s@.subrange(i, i + n));
    assert forall|k: int| 0 <= k < i || i + n <= k < s@.len() implies text::is_space(#[trigger] s@[k]) by {
        if k >= i + n {
            assert(m[k - i] == s@[k]);
        }
    }
}

proof fn start_of(s: Seq<char>) -> (i: int)
    ensures
        0 <= i <= s.len(),
        text::trimmed_start(s) == s.subrange(i, s.len() as int),
        forall|k: int| 0 <= k < i ==> text::is_space(#[trigger] s[k]),
        i < s.len() ==> !text::is_space(s[i]),
    decreases s.len(),
{
    if s.len() > 0 && text::is_space(s[0]) {
        let t = s.subrange(1, s.len() as int);
        let j = start_of(t);
        assert(t.subrange(j, t.len() as int) =~= s.subrange(j + 1, s.len() as int));
        assert forall|k: int| 0 <= k < j + 1 implies text::is_space(#[trigger] s[k]) by {
            if k > 0 {
                assert(t[k - 1] == s[k]);
            }
        }
        j + 1
    } else {
        assert(s.subrange(0, s.len() as int) =~= s);
        0
    }
}

proof fn end_of(s: Seq<char>) -> (n: int)
    ensures
        0 <= n <= s.len(),
        text::trimmed_end(s) == s.subrange(0, n),
        forall|k: int| n <= k < s.len() ==> text::is_space(#[trigger] s[k]),
        n > 0 ==> !text::is_space(s[n - 1]),
    decreases s.len(),
{
    if s.len() > 0 && text::is_space(s.last()) {
        let t = s.drop_last();
        let n = end_of(t);
        assert(t.subrange(0, n) =~= s.subrange(0, n));
        assert forall|k: int| n <= k < s.len() implies text::is_space(#[trigger] s[k]) by {
            if k < t.len() {
                assert(t[k] == s[k]);
            }
        }
        n
    } else {
        assert(s.subrange(0, s.len() as int) =~= s);
        s.len() as int
    }
}

/// Small letters are made of the capital ones of the alphabet, and of nothing else.
pub proof fn capitals_become_small(s: &str, r: String, i: int)
    requires
        call_ensures(to_ascii_lower, (s,), r),
        0 <= i < s@.len(),
    ensures
        r@.len() == s@.len(),
        'A' <= s@[i] <= 'Z' ==> r@[i] as int == s@[i] as int + 32,
        !('A' <= s@[i] <= 'Z') ==> r@[i] == s@[i],
{
}

/// A text is filled up with blanks at its end to the width, and never cut.
pub proof fn padding_fills_up(s: &str, width: usize, r: String, i: int)
    requires
        call_ensures(pad, (s, width), r),
        0 <= i < r@.len(),
    ensures
        r@.len() == if s@.len() >= width {
            s@.len()
        } else {
            width as nat
        },
        i < s@.len() ==> r@[i] == s@[i],
        i >= s@.len() ==> r@[i] == ' ',
{
    padded_is(s@, width as nat);
}

proof fn padded_is(s: Seq<char>, width: nat)
    ensures
        text::padded(s, width).len() == if s.len() >= width {
            s.len()
        } else {
            width
        },
        forall|i: int| 0 <= i < s.len() ==> text::padded(s, width)[i] == #[trigger] s[i],
        forall|i: int|
            s.len() <= i < text::padded(s, width).len() ==> #[trigger] text::padded(s, width)[i] == ' ',
    decreases width - s.len(),
{
    if s.len() < width {
        let t = s.push(' ');
        padded_is(t, width);
        assert forall|i: int| 0 <= i < s.len() implies text::padded(s, width)[i] == #[trigger] s[i] by {
            assert(t[i] == s[i]);
        }
        assert(t[s.len() as int] == ' ');
    }
}

/// What begins with a text is that text and the rest; what does not gives nothing.
pub proof fn a_prefix_and_the_rest(s: &str, p: &str, r: Option<&str>)
    requires
        call_ensures(strip_prefix, (s, p), r),
    ensures
        r matches Some(t) ==> s@ == p@ + t@,
        (exists|t: Seq<char>| s@ == #[trigger] (p@ + t)) ==> r is Some,
{
    if r is Some {
        assert(s@ =~= p@ + r->0@);
    }
    if exists|t: Seq<char>| s@ == #[trigger] (p@ + t) {
        let t = choose|t: Seq<char>| s@ == #[trigger] (p@ + t);
        assert(s@.subrange(0, p@.len() as int) =~= p@);
    }
}

/// A text ends with another, or holds it, where it is something before it, and something after it.
pub proof fn ends_and_parts(s: &str, p: &str, e: bool, c: bool)
    requires
        call_ensures(ends_with, (s, p), e),
        call_ensures(contains, (s, p), c),
    ensures
        e <==> exists|t: Seq<char>| s@ == #[trigger] (t + p@),
        e ==> c,
        (exists|t: Seq<char>, u: Seq<char>| s@ == #[trigger] (t + p@ + u)) ==> c,
        c ==> exists|t: Seq<char>, u: Seq<char>| s@ == #[trigger] (t + p@ + u),
{
    let n = s@.len() as int;
    let m = p@.len() as int;
    if e {
        let t = s@.subrange(0, n - m);
        assert(s@ =~= t + p@);
        assert(s@.subrange(n - m, n - m + m) =~= p@);
    }
    if exists|t: Seq<char>| s@ == #[trigger] (t + p@) {
        let t = choose|t: Seq<char>| s@ == #[trigger] (t + p@);
        assert(s@.subrange(n - m, n) =~= p@);
    }
    if exists|t: Seq<char>, u: Seq<char>| s@ == #[trigger] (t + p@ + u) {
        let (t, u) = choose|t: Seq<char>, u: Seq<char>| s@ == #[trigger] (t + p@ + u);
        let i = t.len() as int;
        assert(s@.subrange(i, i + m) =~= p@);
    }
    if c {
        let i = choose|i: int| 0 <= i <= n - m && #[trigger] s@.subrange(i, i + m) == p@;
        let t = s@.subrange(0, i);
        let u = s@.subrange(i + m, n);
        assert(s@ =~= t + p@ + u);
    }
}

/// Of two different texts one comes before the other, by the first place at which they differ.
pub proof fn texts_are_in_order(a: &str, b: &str, r: bool, s: bool)
    requires
        call_ensures(before, (a, b), r),
        call_ensures(before, (b, a), s),
    ensures
        a@ == b@ ==> !r && !s,
        a@ != b@ ==> r != s,
        a@.len() > 0 && b@.len() > 0 && (a@[0] as int) < (b@[0] as int) ==> r,
        a@.len() == 0 && b@.len() > 0 ==> r,
{
    text::precedes_is_strict_and_total(a@, b@);
}

/// What is under a key is what was put there last; other keys keep what they have.
pub proof fn what_is_put_is_found(
    m: &mut Keyed<u64>,
    k: &str,
    v: u64,
    q: &str,
    r: Option<&u64>,
)
    requires
        old(m).wf(),
        call_ensures(Keyed::<u64>::insert, (m, k, v), ()),
        call_ensures(Keyed::<u64>::get, (&*final(m), q), r),
    ensures
        q@ == k@ ==> r == Some(&v),
        q@ != k@ ==> (r is Some <==> old(m)@.contains_key(q@)),
        q@ != k@ && r is Some ==> *r->0 == old(m)@[q@],
{
}

/// What is taken out is gone, and nothing else is.
pub proof fn what_is_taken_out_is_gone(m: &mut Keyed<u64>, k: &str, r: Option<u64>, q: &str, c: bool)
    requires
        old(m).wf(),
        call_ensures(Keyed::<u64>::remove, (m, k), r),
        call_ensures(Keyed::<u64>::contains, (&*final(m), q), c),
    ensures
        q@ == k@ ==> !c,
        q@ != k@ ==> c == old(m)@.contains_key(q@),
        r is Some <==> old(m)@.contains_key(k@),
        r is Some ==> r->0 == old(m)@[k@],
{
}

/// A list holds what one of its entries is.
pub proof fn a_list_holds_its_entries(v: Vec<String>, k: &str, r: bool, i: int)
    requires
        call_ensures(lists, (&v, k), r),
        0 <= i < v@.len(),
    ensures
        v@[i]@ == k@ ==> r,
        r ==> exists|j: int| 0 <= j < v@.len() && (#[trigger] v@[j])@ == k@,
{
}

/// Whatever has run out goes, and only that.
pub proof fn only_the_past_expires(m: &mut Keyed<u64>, now: u64, gone: Vec<String>, k: Seq<char>)
    requires
        call_ensures(Keyed::<u64>::expire, (m, now), gone),
        old(m)@.contains_key(k),
    ensures
        final(m)@.contains_key(k) <==> old(m)@[k] >= now,
        final(m)@.contains_key(k) ==> final(m)@[k] == old(m)@[k],
        (exists|i: int| 0 <= i < gone@.len() && (#[trigger] gone@[i])@ == k) <==> old(m)@[k] < now,
{
    assert(keyed::listed(gone@, k) <==> old(m)@[k] < now);
}

/// Bytes that are asked for by number are had, in that number and as they were written.
pub proof fn bytes_are_read_as_written(b: Seq<u8>, s: &str, n: usize, r: Option<Vec<u8>>)
    requires
        s@ == hexadecimal::hex_text(b),
        call_ensures(decode_exact, (s, n), r),
    ensures
        r is Some <==> n == b.len(),
        r is Some ==> r->0@ == b,
{
    hexadecimal::hex_round_trip(b);
}

/// Bytes are read in that number or not at all.
pub proof fn bytes_are_read_in_that_number(s: &str, n: usize, r: Option<Vec<u8>>)
    requires
        call_ensures(decode_exact, (s, n), r),
    ensures
        r is Some ==> r->0@.len() == n && s@.len() == 2 * n,
{
}

/// The digest of a file is that of all that was read of it, in order; what cannot be read has none.
pub proof fn a_digest_is_of_what_was_read(h: sha2::Sha256, a: &[u8], n: HashStep, m: HashStep, e: &[u8], x: HashStep)
    requires
        a@.len() > 0,
        e@.len() == 0,
        call_ensures(full_hash_step, (h, Some(a)), n),
        n matches HashStep::More(g) && call_ensures(full_hash_step, (g, Some(e)), m),
        call_ensures(full_hash_step, (h, None), x),
    ensures
        m matches HashStep::Done(Some(t)) && t@ == hexadecimal::hex_text(
            digest::sha256(digest::absorbed(h) + a@),
        ),
        x matches HashStep::Done(None),
{
}

/// The digest of the head is that of the first quarter of a mebibyte, or of all there is.
pub proof fn a_head_digest_is_of_the_head(d: &[u8], h: String, f: String)
    requires
        call_ensures(head_hash, (d,), h),
        call_ensures(sha256_hex, (d,), f),
    ensures
        f@ == hexadecimal::hex_text(digest::sha256(d@)),
        d@.len() <= 262_144 ==> h@ == f@,
        d@.len() > 262_144 ==> h@ == hexadecimal::hex_text(
            digest::sha256(d@.subrange(0, 262_144)),
        ),
{
    if d@.len() > 262_144 {
        assert(d@.take(262_144) =~= d@.subrange(0, 262_144));
    }
}

/// Texts are compared and joined as they are.
pub proof fn texts_are_joined_in_order(
    a: &str,
    b: &str,
    c: &str,
    d: &str,
    e: &str,
    s: bool,
    two: String,
    three: String,
    five: String,
)
    requires
        call_ensures(same, (a, b), s),
        call_ensures(cat, (a, b), two),
        call_ensures(cat3, (a, b, c), three),
        call_ensures(cat5, (a, b, c, d, e), five),
    ensures
        s <==> a@ == b@,
        two@ == a@ + b@,
        three@ == two@ + c@,
        five@ == three@ + d@ + e@,
{
}

/// A blank is one of the characters that leave a space, and no letter or digit is.
pub proof fn what_a_blank_is(c: char, r: bool)
    requires
        call_ensures(space, (c,), r),
    ensures
        c == ' ' || c == '\t' || c == '\n' || c == '\r' ==> r,
        0x21 <= c as int <= 0x84 ==> !r,
        0x0E <= c as int <= 0x1F ==> !r,
        c as int == 0x85 || c as int == 0xA0 || c as int == 0x1680 || c as int == 0x3000 ==> r,
        0x2000 <= c as int <= 0x200A || c as int == 0x2028 || c as int == 0x2029 || c as int == 0x202F
            || c as int == 0x205F ==> r,
        0x86 <= c as int <= 0x9F || 0xA1 <= c as int <= 0x167F || c as int > 0x3000 ==> !r,
{
}

/// The number that some digits to the base of sixteen stand for.
pub open spec fn base16(s: Seq<char>) -> nat
    decreases s.len(),
{
    if s.len() == 0 {
        0
    } else {
        base16(s.drop_last()) * 16 + if '0' <= s.last() <= '9' {
            (s.last() as int - 48) as nat
        } else {
            (s.last() as int - 87) as nat
        }
    }
}

proof fn hexadecimal_has_its_value(n: nat)
    ensures
        text::hexadecimal(n).len() > 0,
        base16(text::hexadecimal(n)) == n,
        n > 0 ==> text::hexadecimal(n)[0] != '0',
        forall|i: int|
            0 <= i < text::hexadecimal(n).len() ==> ('0' <= #[trigger] text::hexadecimal(n)[i] <= '9'
                || 'a' <= text::hexadecimal(n)[i] <= 'f'),
    decreases n,
{
    let d = text::hexadecimal(n);
    if n < 16 {
        assert(d.drop_last() =~= Seq::<char>::empty());
        assert(base16(d.drop_last()) == 0);
    } else {
        hexadecimal_has_its_value(n / 16);
        let m = text::hexadecimal(n / 16);
        assert(d.drop_last() =~= m);
        assert(d[0] == m[0]);
        assert forall|i: int| 0 <= i < d.len() implies ('0' <= #[trigger] d[i] <= '9' || 'a' <= d[i]
            <= 'f') by {
            if i < m.len() {
                assert(d[i] == m[i]);
            }
        }
    }
}

/// A number in hexadecimal has small letters, no zeros before it, and its value.
pub proof fn hexadecimal_numbers_have_their_value(n: u64, r: String, i: int)
    requires
        call_ensures(to_hexadecimal, (n,), r),
    ensures
        base16(r@) == n,
        n > 0 ==> r@[0] != '0',
        0 <= i < r@.len() ==> '0' <= r@[i] <= '9' || 'a' <= r@[i] <= 'f',
{
    hexadecimal_has_its_value(n as nat);
}

/// Nothing is waited for at first.
pub proof fn nothing_is_waited_for_at_first(r: AckWindow)
    requires
        call_ensures(AckWindow::new, (), r),
    ensures
        r.sent_all_at is None,
        r.reprobed_at is None,
{
}

/// A new collection is empty; its length is the number of its keys, and each place has one.
pub proof fn a_collection_counts_its_keys(e: Keyed<u64>, m: Keyed<u64>, n: usize, i: usize, k: &str, q: Seq<char>)
    requires
        call_ensures(Keyed::<u64>::new, (), e),
        m.wf(),
        call_ensures(Keyed::<u64>::len, (&m,), n),
        i < n,
        call_ensures(Keyed::<u64>::key_at, (&m, i), k),
    ensures
        !e@.contains_key(q),
        e.entries@.len() == 0,
        n == m.entries@.len(),
        n == m@.dom().len(),
        k@ == m.entries@[i as int].0@,
        m@.contains_key(k@),
        m@[k@] == m.entries@[i as int].1,
{
}

/// A member is read as what it is, and not where it is something else.
pub proof fn a_member_is_what_it_is(
    v: serde_json::Value,
    key: &str,
    t: Option<&str>,
    f: Option<bool>,
    c: Option<u64>,
)
    requires
        call_ensures(text_at, (&v, key), t),
        call_ensures(flag_at, (&v, key), f),
        call_ensures(count_at, (&v, key), c),
    ensures
        frame::json(v).member(key@) matches frame::Json::Text(s) ==> t is Some && t->0@ == s,
        frame::json(v).member(key@) !is Text ==> t is None,
        frame::json(v).member(key@) matches frame::Json::Bool(b) ==> f == Some(b),
        frame::json(v).member(key@) !is Bool ==> f is None,
        frame::json(v).member(key@) matches frame::Json::Number(n) ==> c == n,
        frame::json(v).member(key@) !is Number ==> c is None,
{
}

/// The members of an object are those it has, and nothing else has any.
pub proof fn only_objects_have_members(m: Map<Seq<char>, frame::Json>, k: Seq<char>, j: frame::Json)
    ensures
        m.contains_key(k) ==> frame::Json::Object(m).member(k) == m[k],
        !m.contains_key(k) ==> frame::Json::Object(m).member(k) is Null,
        j !is Object ==> j.member(k) is Null,
{
}

proof fn texts_of_all(a: Seq<frame::Json>)
    requires
        forall|i: int| 0 <= i < a.len() ==> (#[trigger] a[i]) is Text,
    ensures
        frame::texts(a).len() == a.len(),
        forall|i: int| 0 <= i < a.len() ==> frame::texts(a)[i] == (#[trigger] a[i])->Text_0,
    decreases a.len(),
{
    if a.len() > 0 {
        let b = a.drop_last();
        assert forall|i: int| 0 <= i < b.len() implies (#[trigger] b[i]) is Text by {
            assert(a[i] is Text);
        }
        texts_of_all(b);
        assert(a[a.len() - 1] is Text);
        assert forall|i: int| 0 <= i < a.len() implies frame::texts(a)[i] == (#[trigger] a[i])->Text_0 by {
            if i < b.len() {
                assert(b[i] == a[i]);
            }
        }
    }
}

/// A list of texts is read in order, and nothing else is a list.
pub proof fn a_list_of_texts_is_read_in_order(v: serde_json::Value, r: Vec<String>, a: Seq<frame::Json>, i: int)
    requires
        call_ensures(text_list, (&v,), r),
    ensures
        frame::json(v) !is Array ==> r@.len() == 0,
        frame::json(v) == frame::Json::Array(a) && (forall|k: int|
            0 <= k < a.len() ==> (#[trigger] a[k]) is Text) ==> r@.len() == a.len() && (0 <= i < a.len()
            ==> r@[i]@ == a[i]->Text_0),
{
    assert(frame::views(r@).len() == r@.len());
    if frame::json(v) == frame::Json::Array(a) && (forall|k: int|
        0 <= k < a.len() ==> (#[trigger] a[k]) is Text) {
        texts_of_all(a);
        if 0 <= i < a.len() {
            assert(frame::views(r@)[i] == r@[i]@);
            assert(a[i] is Text);
        }
    }
}

/// The digest of a file ends with it: of nothing there is the digest of nothing, and of what cannot
/// be read there is none.
pub proof fn a_digest_ends_with_the_file(reads: Vec<Option<Vec<u8>>>, r: Option<String>, h: sha2::Sha256)
    requires
        call_ensures(full_hash, (&reads,), r),
        call_ensures(full_hash_start, (), h),
    ensures
        digest::absorbed(h) == Seq::<u8>::empty(),
        reads@.len() == 0 ==> r is Some && r->0@ == hexadecimal::hex_text(
            digest::sha256(Seq::<u8>::empty()),
        ),
        reads@.len() > 0 && reads@[0] is None ==> r is None,
        reads@.len() > 0 && reads@[0] is Some && reads@[0]->0@.len() == 0 ==> r is Some && r->0@
            == hexadecimal::hex_text(digest::sha256(Seq::<u8>::empty())),
{
}

/// A piece more comes before the rest: the digest is that of both, and there is none where the rest
/// cannot be read.
pub proof fn a_piece_comes_before_the_rest(
    reads: Vec<Option<Vec<u8>>>,
    rest: Vec<Option<Vec<u8>>>,
    r: Option<String>,
    s: Option<String>,
)
    requires
        reads@.len() > 0,
        reads@[0] is Some,
        reads@[0]->0@.len() > 0,
        rest@ == reads@.subrange(1, reads@.len() as int),
        call_ensures(full_hash, (&reads,), r),
        call_ensures(full_hash, (&rest,), s),
    ensures
        r is None <==> s is None,
        s is Some ==> exists|x: Seq<u8>|
            s->0@ == hexadecimal::hex_text(#[trigger] digest::sha256(x)) && r->0@
                == hexadecimal::hex_text(digest::sha256(reads@[0]->0@ + x)),
{
    if s is Some {
        let x = digest::content(rest@);
        assert(s->0@ == hexadecimal::hex_text(digest::sha256(x)));
    }
}

/// What `Cursor::read` does not concern, of the cursor, stays as it is.
pub proof fn what_read_leaves_alone(
    q: &mut Cursor,
    n: usize,
    r: Piece,
)
    requires
        call_ensures(Cursor::read, (q, n), r),
    ensures
        final(q).end == old(q).end,
{
}

} // verus!
