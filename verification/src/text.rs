//! Text helpers: equality, concatenation, decimal numbers, trimming and search.

use vstd::prelude::*;
use vstd::string::*;
use vstd::utf8::*;

verus! {

/// `String::push` of the standard library appends one character.
pub assume_specification[ String::push ](s: &mut String, c: char)
    ensures
        final(s)@ == old(s)@.push(c),
;

/// What `str::to_lowercase` of the standard library turns a text into.
pub uninterp spec fn lowercase(s: Seq<char>) -> Seq<char>;

/// `str::to_lowercase` of the standard library: the Unicode lower-case mapping of
/// the text, named rather than written out.
#[verifier::external_body]
pub(crate) fn to_lower(s: &str) -> (r: String)
    ensures
        r@ == lowercase(s@),
{
    s.to_lowercase()
}

/// The number of bytes a text takes in UTF-8, as `str::len` reports it.
pub open spec fn byte_len(s: Seq<char>) -> usize {
    encode_utf8(s).len() as usize
}

/// Whether two texts are the same.
pub fn same(a: &str, b: &str) -> (r: bool)
    ensures
        r == (a@ == b@),
{
    a.to_owned() == b.to_owned()
}

/// `a` followed by `b`.
pub fn cat(a: &str, b: &str) -> (r: String)
    ensures
        r@ == a@ + b@,
{
    let mut out = a.to_owned();
    out.append(b);
    out
}

/// `a`, `b` and `c` one after the other.
pub fn cat3(a: &str, b: &str, c: &str) -> (r: String)
    ensures
        r@ == a@ + b@ + c@,
{
    let mut out = a.to_owned();
    out.append(b);
    out.append(c);
    out
}

/// `a`, `b`, `c`, `d` and `e` one after the other.
pub fn cat5(a: &str, b: &str, c: &str, d: &str, e: &str) -> (r: String)
    ensures
        r@ == a@ + b@ + c@ + d@ + e@,
{
    let mut out = a.to_owned();
    out.append(b);
    out.append(c);
    out.append(d);
    out.append(e);
    out
}

/// The character for a decimal digit.
pub open spec fn digit(d: nat) -> char {
    (48 + d) as char
}

/// A number in decimal, without leading zeros.
pub open spec fn decimal(n: nat) -> Seq<char>
    decreases n,
{
    if n < 10 {
        seq![digit(n)]
    } else {
        decimal(n / 10).push(digit(n % 10))
    }
}

/// A number in decimal.
pub fn to_decimal(n: u64) -> (r: String)
    ensures
        r@ == decimal(n as nat),
    decreases n,
{
    let d: u8 = 48 + (n % 10) as u8;
    if n < 10 {
        let mut out = String::new();
        out.push(d as char);
        proof {
            assert(out@ =~= decimal(n as nat));
        }
        out
    } else {
        let mut out = to_decimal(n / 10);
        out.push(d as char);
        out
    }
}

/// Different numbers are written differently.
pub proof fn decimal_is_injective(a: nat, b: nat)
    requires
        decimal(a) == decimal(b),
    ensures
        a == b,
    decreases a,
{
    if a < 10 && b < 10 {
        assert(decimal(a)[0] == digit(a) && decimal(b)[0] == digit(b));
        assert(digit(a) as int == 48 + a && digit(b) as int == 48 + b);
    } else if a >= 10 && b >= 10 {
        assert(decimal(a).last() == digit(a % 10) && decimal(b).last() == digit(b % 10));
        assert(digit(a % 10) as int == 48 + a % 10 && digit(b % 10) as int == 48 + b % 10);
        assert(decimal(a).drop_last() =~= decimal(a / 10));
        assert(decimal(b).drop_last() =~= decimal(b / 10));
        decimal_is_injective(a / 10, b / 10);
    } else {
        decimal_is_not_empty(a / 10);
        decimal_is_not_empty(b / 10);
        let (short, long) = if a < 10 {
            (a, b)
        } else {
            (b, a)
        };
        assert(decimal(short) == seq![digit(short)]);
        assert(decimal(long) == decimal(long / 10).push(digit(long % 10)));
    }
}

/// A number takes at least one digit.
pub proof fn decimal_is_not_empty(n: nat)
    ensures
        decimal(n).len() > 0,
    decreases n,
{
    if n >= 10 {
        decimal_is_not_empty(n / 10);
    }
}

/// A number in lower-case hexadecimal, without leading zeros.
pub open spec fn hexadecimal(n: nat) -> Seq<char>
    decreases n,
{
    if n < 16 {
        seq![crate::hexadecimal::hex_digit(n)]
    } else {
        hexadecimal(n / 16).push(crate::hexadecimal::hex_digit(n % 16))
    }
}

/// A number in lower-case hexadecimal.
pub fn to_hexadecimal(n: u64) -> (r: String)
    ensures
        r@ == hexadecimal(n as nat),
    decreases n,
{
    let low: u8 = (n % 16) as u8;
    let d: u8 = if low < 10 {
        48 + low
    } else {
        87 + low
    };
    if n < 16 {
        let mut out = String::new();
        out.push(d as char);
        proof {
            assert(out@ =~= hexadecimal(n as nat));
        }
        out
    } else {
        let mut out = to_hexadecimal(n / 16);
        out.push(d as char);
        out
    }
}

/// A character with an ASCII capital made small.
pub open spec fn ascii_small(c: char) -> char {
    if 'A' <= c <= 'Z' {
        (c as int + 32) as char
    } else {
        c
    }
}

/// A text with its ASCII capitals made small.
pub open spec fn ascii_lowercase(s: Seq<char>) -> Seq<char> {
    Seq::new(s.len(), |i: int| ascii_small(s[i]))
}

fn small(c: char) -> (r: char)
    ensures
        r == ascii_small(c),
{
    let n: u32 = c as u32;
    if 65 <= n && n <= 90 {
        (n as u8 + 32) as char
    } else {
        c
    }
}

/// A text with its ASCII capitals made small.
pub fn to_ascii_lower(s: &str) -> (r: String)
    ensures
        r@ == ascii_lowercase(s@),
{
    let mut out = String::new();
    for c in it: s.chars()
        invariant
            it.seq() == s@,
            out@ == ascii_lowercase(s@.subrange(0, it.index() as int)),
    {
        out.push(small(c));
        proof {
            assert(out@ =~= ascii_lowercase(s@.subrange(0, it.index() + 1)));
        }
    }
    proof {
        assert(s@.subrange(0, s@.len() as int) =~= s@);
    }
    out
}

/// Unicode's `White_Space` property.
pub open spec fn is_space(c: char) -> bool {
    ||| 0x09 <= c as int <= 0x0D
    ||| c as int == 0x20
    ||| c as int == 0x85
    ||| c as int == 0xA0
    ||| c as int == 0x1680
    ||| 0x2000 <= c as int <= 0x200A
    ||| c as int == 0x2028
    ||| c as int == 0x2029
    ||| c as int == 0x202F
    ||| c as int == 0x205F
    ||| c as int == 0x3000
}

/// Whether a character is white space.
pub fn space(c: char) -> (r: bool)
    ensures
        r == is_space(c),
{
    let n: u32 = c as u32;
    (0x09 <= n && n <= 0x0D) || n == 0x20 || n == 0x85 || n == 0xA0 || n == 0x1680 || (0x2000 <= n
        && n <= 0x200A) || n == 0x2028 || n == 0x2029 || n == 0x202F || n == 0x205F || n == 0x3000
}

/// A text without the white space at its start.
pub open spec fn trimmed_start(s: Seq<char>) -> Seq<char>
    decreases s.len(),
{
    if s.len() > 0 && is_space(s[0]) {
        trimmed_start(s.subrange(1, s.len() as int))
    } else {
        s
    }
}

/// A text without the white space at its end.
pub open spec fn trimmed_end(s: Seq<char>) -> Seq<char>
    decreases s.len(),
{
    if s.len() > 0 && is_space(s.last()) {
        trimmed_end(s.drop_last())
    } else {
        s
    }
}

/// A text without the white space around it.
pub open spec fn trimmed(s: Seq<char>) -> Seq<char> {
    trimmed_end(trimmed_start(s))
}

/// The text without the white space around it.
pub fn trim(s: &str) -> (r: &str)
    ensures
        r@ == trimmed(s@),
{
    let n: usize = s.unicode_len();
    let mut from: usize = 0;
    proof {
        assert(s@.subrange(0, n as int) =~= s@);
    }
    while from < n && space(s.get_char(from))
        invariant
            from <= n,
            n == s@.len(),
            trimmed_start(s@) == trimmed_start(s@.subrange(from as int, n as int)),
        decreases n - from,
    {
        proof {
            let rest = s@.subrange(from as int, n as int);
            assert(rest.subrange(1, rest.len() as int) =~= s@.subrange(from + 1, n as int));
        }
        from += 1;
    }
    proof {
        assert(trimmed_start(s@) =~= s@.subrange(from as int, n as int));
    }
    let mut to: usize = n;
    while to > from && space(s.get_char(to - 1))
        invariant
            from <= to <= n,
            n == s@.len(),
            trimmed(s@) == trimmed_end(s@.subrange(from as int, to as int)),
        decreases to,
    {
        proof {
            let rest = s@.subrange(from as int, to as int);
            assert(rest.drop_last() =~= s@.subrange(from as int, to - 1));
        }
        to -= 1;
    }
    s.substring_char(from, to)
}

/// Whether `s` begins with `p`.
pub open spec fn begins(s: Seq<char>, p: Seq<char>) -> bool {
    p.len() <= s.len() && s.subrange(0, p.len() as int) == p
}

/// Whether `s` ends with `p`.
pub open spec fn ends(s: Seq<char>, p: Seq<char>) -> bool {
    p.len() <= s.len() && s.subrange(s.len() - p.len(), s.len() as int) == p
}

/// Whether `p` occurs in `s`.
pub open spec fn occurs(s: Seq<char>, p: Seq<char>) -> bool {
    exists|i: int|
        0 <= i <= s.len() - p.len() && #[trigger] s.subrange(i, i + p.len()) == p
}

/// What follows `p` in `s`, where `s` begins with it.
pub fn strip_prefix<'a>(s: &'a str, p: &str) -> (r: Option<&'a str>)
    ensures
        r is Some <==> begins(s@, p@),
        r matches Some(t) ==> t@ == s@.subrange(p@.len() as int, s@.len() as int),
{
    let n: usize = s.unicode_len();
    let k: usize = p.unicode_len();
    if k <= n && same(s.substring_char(0, k), p) {
        Some(s.substring_char(k, n))
    } else {
        None
    }
}

/// Whether `s` ends with `p`.
pub fn ends_with(s: &str, p: &str) -> (r: bool)
    ensures
        r == ends(s@, p@),
{
    let n: usize = s.unicode_len();
    let k: usize = p.unicode_len();
    k <= n && same(s.substring_char(n - k, n), p)
}

/// Whether `p` occurs in `s`.
pub fn contains(s: &str, p: &str) -> (r: bool)
    ensures
        r == occurs(s@, p@),
{
    let n: usize = s.unicode_len();
    let k: usize = p.unicode_len();
    let mut i: usize = 0;
    while i < n && k <= n - i
        invariant
            i <= n,
            n == s@.len(),
            k == p@.len(),
            forall|j: int| 0 <= j < i && j <= n - k ==> #[trigger] s@.subrange(j, j + k) != p@,
        decreases n - i,
    {
        if same(s.substring_char(i, i + k), p) {
            proof {
                assert(s@.subrange(i as int, i + p@.len()) == p@);
            }
            return true;
        }
        i += 1;
    }
    if k == 0 && n == 0 {
        proof {
            assert(s@.subrange(0, 0int + p@.len()) =~= p@);
        }
        return true;
    }
    proof {
        if occurs(s@, p@) {
            let j = choose|j: int|
                0 <= j <= s@.len() - p@.len() && #[trigger] s@.subrange(j, j + p@.len()) == p@;
            if k == 0 {
                assert(s@.subrange(0, 0int + p@.len()) =~= p@);
            }
            assert(s@.subrange(j, j + k) == p@);
        }
    }
    false
}

/// Lexicographic order of texts by code point, which is also their order by bytes.
pub open spec fn precedes(a: Seq<char>, b: Seq<char>) -> bool
    decreases a.len(),
{
    if b.len() == 0 {
        false
    } else if a.len() == 0 {
        true
    } else if a[0] != b[0] {
        (a[0] as int) < (b[0] as int)
    } else {
        precedes(a.subrange(1, a.len() as int), b.subrange(1, b.len() as int))
    }
}

/// Whether `a` sorts strictly before `b`.
pub fn before(a: &str, b: &str) -> (r: bool)
    ensures
        r == precedes(a@, b@),
{
    let n: usize = a.unicode_len();
    let k: usize = b.unicode_len();
    let mut i: usize = 0;
    proof {
        assert(a@.subrange(0, n as int) =~= a@);
        assert(b@.subrange(0, k as int) =~= b@);
    }
    while i < n && i < k
        invariant
            i <= n,
            i <= k,
            n == a@.len(),
            k == b@.len(),
            precedes(a@, b@) == precedes(
                a@.subrange(i as int, n as int),
                b@.subrange(i as int, k as int),
            ),
        decreases n - i,
    {
        let x: u32 = a.get_char(i) as u32;
        let y: u32 = b.get_char(i) as u32;
        if x != y {
            return x < y;
        }
        proof {
            let p = a@.subrange(i as int, n as int);
            let q = b@.subrange(i as int, k as int);
            assert(p[0] == q[0]);
            assert(p.subrange(1, p.len() as int) =~= a@.subrange(i + 1, n as int));
            assert(q.subrange(1, q.len() as int) =~= b@.subrange(i + 1, k as int));
        }
        i += 1;
    }
    i < k
}

/// Of two different texts exactly one sorts before the other.
pub proof fn precedes_is_strict_and_total(a: Seq<char>, b: Seq<char>)
    ensures
        a != b ==> precedes(a, b) != precedes(b, a),
        a == b ==> !precedes(a, b),
    decreases a.len(),
{
    if a.len() > 0 && b.len() > 0 {
        let x = a.subrange(1, a.len() as int);
        let y = b.subrange(1, b.len() as int);
        precedes_is_strict_and_total(x, y);
        if a[0] == b[0] && x == y {
            assert(a =~= seq![a[0]] + x);
            assert(b =~= seq![b[0]] + y);
        }
    } else if a.len() == 0 && b.len() == 0 {
        assert(a =~= b);
    }
}

/// The characters are decimal digits.
pub open spec fn all_digits(s: Seq<char>) -> bool {
    forall|i: int| 0 <= i < s.len() ==> '0' <= #[trigger] s[i] <= '9'
}

/// The number that decimal digits write.
pub open spec fn digits_value(s: Seq<char>) -> nat
    decreases s.len(),
{
    if s.len() == 0 {
        0
    } else {
        digits_value(s.drop_last()) * 10 + (s.last() as nat - '0' as nat) as nat
    }
}

/// A text without one plus sign at its start.
pub open spec fn without_plus(s: Seq<char>) -> Seq<char> {
    if s.len() > 0 && s[0] == '+' {
        s.skip(1)
    } else {
        s
    }
}

/// The number that a text writes: decimal digits, at least one of them, that a plus sign may
/// precede, of a number that fits.
pub open spec fn number_in(s: Seq<char>) -> Option<u64> {
    let d = without_plus(s);
    if d.len() > 0 && all_digits(d) && digits_value(d) <= u64::MAX {
        Some(digits_value(d) as u64)
    } else {
        None
    }
}

proof fn more_digits_write_no_less(s: Seq<char>, n: int)
    requires
        0 <= n <= s.len(),
        all_digits(s),
    ensures
        digits_value(s.take(n)) <= digits_value(s),
    decreases s.len() - n,
{
    if n < s.len() {
        let t = s.take(n + 1);
        assert(t.drop_last() =~= s.take(n));
        assert(t.last() == s[n]);
        more_digits_write_no_less(s, n + 1);
    } else {
        assert(s.take(n) =~= s);
    }
}

/// What a decimal digit stands for.
fn digit_of(c: char) -> (r: Option<u64>)
    ensures
        r is Some <==> '0' <= c <= '9',
        r matches Some(d) ==> d == c as nat - '0' as nat && d <= 9,
{
    let n: u32 = c as u32;
    if 48 <= n && n <= 57 {
        Some((n - 48) as u64)
    } else {
        None
    }
}

/// The number that a text writes, if it writes one.
pub fn parse_number(s: &str) -> (r: Option<u64>)
    ensures
        r == number_in(s@),
{
    let body = match strip_prefix(s, "+") {
        Some(t) => t,
        None => s,
    };
    proof {
        reveal_strlit("+");
        assert("+"@ =~= seq!['+']);
        if s@.len() > 0 && s@[0] == '+' {
            assert(s@.subrange(0, 1) =~= "+"@);
        }
        if begins(s@, "+"@) {
            assert(s@.subrange(0, 1)[0] == s@[0]);
        }
        assert(body@ =~= without_plus(s@));
    }
    let mut n: u64 = 0;
    let mut any: bool = false;
    for c in it: body.chars()
        invariant
            it.seq() == body@,
            body@ == without_plus(s@),
            any == (it.index() > 0),
            all_digits(body@.take(it.index() as int)),
            n == digits_value(body@.take(it.index() as int)),
    {
        any = true;
        let ghost i = it.index() as int;
        let ghost t = body@.take(i + 1);
        proof {
            assert(t.drop_last() =~= body@.take(i));
            assert(t.last() == body@[i]);
            assert(c == body@[i]);
        }
        match digit_of(c) {
            None => {
                return None;
            },
            Some(d) => {
                if n > (u64::MAX - d) / 10 {
                    proof {
                        assert(digits_value(t) > u64::MAX);
                        if all_digits(body@) {
                            more_digits_write_no_less(body@, i + 1);
                        }
                    }
                    return None;
                }
                n = n * 10 + d;
            },
        }
        proof {
            assert forall|k: int| 0 <= k < t.len() implies '0' <= #[trigger] t[k] <= '9' by {
                if k < i {
                    assert(t[k] == body@.take(i)[k]);
                }
            }
        }
    }
    proof {
        assert(body@.take(body@.len() as int) =~= body@);
    }
    if any {
        Some(n)
    } else {
        None
    }
}

/// `s` with blanks behind it, up to `width` characters in all.
pub open spec fn padded(s: Seq<char>, width: nat) -> Seq<char>
    decreases width - s.len(),
{
    if s.len() >= width {
        s
    } else {
        padded(s.push(' '), width)
    }
}

/// `s` with blanks behind it, up to `width` characters in all.
pub fn pad(s: &str, width: usize) -> (r: String)
    ensures
        r@ == padded(s@, width as nat),
{
    let mut out = s.to_owned();
    let mut n: usize = s.unicode_len();
    while n < width
        invariant
            n == out@.len(),
            padded(out@, width as nat) == padded(s@, width as nat),
        decreases width - n,
    {
        out.push(' ');
        n += 1;
    }
    out
}

} // verus!
