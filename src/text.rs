//! Decimal text of integers, read and written exactly as the standard
//! library's `FromStr` and `Display` do for the primitive integer types.

use vstd::prelude::*;

verus! {

/// Why a decimal text is not an integer of the requested range.
#[derive(Debug, Clone, Copy, PartialEq, Eq)]
pub enum IntErrorKind {
    Empty,
    InvalidDigit,
    PosOverflow,
    NegOverflow,
}

pub open spec fn is_digit(c: char) -> bool {
    '0' <= c && c <= '9'
}

pub open spec fn digit_value(c: char) -> nat {
    (c as int - '0' as int) as nat
}

pub open spec fn digit_char(n: nat) -> char {
    ((n + '0' as nat) as u32) as char
}

/// The number that a run of decimal digits denotes.
pub open spec fn digits_value(d: Seq<char>) -> nat
    decreases d.len(),
{
    if d.len() == 0 {
        0
    } else {
        digits_value(d.drop_last()) * 10 + digit_value(d.last())
    }
}

/// How many decimal digits `d` starts with.
pub open spec fn digit_run(d: Seq<char>) -> nat
    decreases d.len(),
{
    if d.len() > 0 && is_digit(d[0]) {
        1 + digit_run(d.skip(1))
    } else {
        0
    }
}

/// Whether the text starts with a minus sign that the range `lo..=hi` can
/// take: a type without negative values reads `-` as an invalid digit.
pub open spec fn negated(s: Seq<char>, lo: int) -> bool {
    s.len() > 0 && s[0] == '-' && lo < 0
}

/// The digits of the text, after its sign.
pub open spec fn unsigned_part(s: Seq<char>, lo: int) -> Seq<char> {
    if s.len() > 0 && (s[0] == '+' || negated(s, lo)) {
        s.skip(1)
    } else {
        s
    }
}

/// What reading `s` as an integer of the range `lo..=hi` gives: an optional
/// sign followed by decimal digits. Of two faults the earlier in the text is
/// reported, and a fault at the digit where the value leaves the range is an
/// overflow.
pub open spec fn parse_int(s: Seq<char>, lo: int, hi: int) -> Result<int, IntErrorKind> {
    if s.len() == 0 {
        Err(IntErrorKind::Empty)
    } else if (s[0] == '+' || s[0] == '-') && s.len() == 1 {
        Err(IntErrorKind::InvalidDigit)
    } else {
        let d = unsigned_part(s, lo);
        let k = digit_run(d);
        let v = digits_value(d.take(k as int)) as int;
        if !negated(s, lo) && v > hi {
            Err(IntErrorKind::PosOverflow)
        } else if negated(s, lo) && -v < lo {
            Err(IntErrorKind::NegOverflow)
        } else if k < d.len() {
            Err(IntErrorKind::InvalidDigit)
        } else if negated(s, lo) {
            Ok(-v)
        } else {
            Ok(v)
        }
    }
}

/// The shortest decimal digits of `n`.
pub open spec fn nat_text(n: nat) -> Seq<char>
    decreases n,
{
    if n < 10 {
        seq![digit_char(n)]
    } else {
        nat_text(n / 10).push(digit_char(n % 10))
    }
}

/// The decimal text of `i`, with a leading `-` when it is negative.
pub open spec fn int_text(i: int) -> Seq<char> {
    if i < 0 {
        seq!['-'] + nat_text((-i) as nat)
    } else {
        nat_text(i as nat)
    }
}

/// A run of digits without superfluous leading zeros.
pub open spec fn canonical_digits(d: Seq<char>) -> bool {
    &&& d.len() > 0
    &&& forall|i: int| 0 <= i < d.len() ==> is_digit(#[trigger] d[i])
    &&& (d[0] == '0' ==> d.len() == 1)
}

/// The text that [`int_text`] writes for some integer: digits without
/// superfluous leading zeros, with a `-` only before a nonzero value.
pub open spec fn canonical_int_text(s: Seq<char>) -> bool {
    if s.len() > 0 && s[0] == '-' {
        canonical_digits(s.skip(1)) && s[1] != '0'
    } else {
        canonical_digits(s)
    }
}

proof fn lemma_digit_run(d: Seq<char>, i: int)
    requires
        0 <= i <= d.len(),
        forall|j: int| 0 <= j < i ==> is_digit(#[trigger] d[j]),
    ensures
        digit_run(d) >= i,
        i == d.len() || !is_digit(d[i]) ==> digit_run(d) == i,
    decreases i,
{
    if i > 0 {
        assert(is_digit(d[0]));
        let t = d.skip(1);
        assert forall|j: int| 0 <= j < i - 1 implies is_digit(#[trigger] t[j]) by {
            assert(t[j] == d[j + 1]);
        }
        lemma_digit_run(t, i - 1);
        if i < d.len() {
            assert(t[i - 1] == d[i]);
        }
    } else if i < d.len() {
        assert(!is_digit(d[0]) ==> digit_run(d) == 0);
    }
}

proof fn lemma_digit_run_bound(d: Seq<char>)
    ensures
        digit_run(d) <= d.len(),
    decreases d.len(),
{
    if d.len() > 0 && is_digit(d[0]) {
        lemma_digit_run_bound(d.skip(1));
    }
}

proof fn lemma_digits_step(d: Seq<char>, i: int)
    requires
        0 <= i < d.len(),
    ensures
        digits_value(d.take(i + 1)) == digits_value(d.take(i)) * 10 + digit_value(d[i]),
{
    assert(d.take(i + 1).drop_last() =~= d.take(i));
}

proof fn lemma_digits_monotone(d: Seq<char>, a: int, b: int)
    requires
        0 <= a <= b <= d.len(),
    ensures
        digits_value(d.take(a)) <= digits_value(d.take(b)),
    decreases b - a,
{
    if a < b {
        lemma_digits_monotone(d, a, b - 1);
        lemma_digits_step(d, b - 1);
    }
}

/// Reads `s` as an integer of the range `lo..=hi`, as `FromStr` does for the
/// primitive integer types.
pub fn parse_decimal(s: &str, lo: i128, hi: i128) -> (r: Result<i128, IntErrorKind>)
    requires
        -(u64::MAX as int) <= lo <= 0 <= hi <= u64::MAX,
    ensures
        match r {
            Ok(v) => parse_int(s@, lo as int, hi as int) == Ok::<int, IntErrorKind>(v as int),
            Err(e) => parse_int(s@, lo as int, hi as int) == Err::<int, IntErrorKind>(e),
        },
{
    let n = s.unicode_len();
    if n == 0 {
        return Err(IntErrorKind::Empty);
    }
    let first = s.get_char(0);
    if (first == '+' || first == '-') && n == 1 {
        return Err(IntErrorKind::InvalidDigit);
    }
    let neg = first == '-' && lo < 0;
    let start: usize = if first == '+' || neg { 1 } else { 0 };
    let ghost d = unsigned_part(s@, lo as int);
    let limit: u128 = if neg { (-lo) as u128 } else { hi as u128 };
    let mut acc: u128 = 0;
    let mut i: usize = start;
    assert(d =~= s@.skip(start as int));
    while i < n
        invariant
            n == s@.len(),
            start <= i <= n,
            d =~= s@.skip(start as int),
            d == unsigned_part(s@, lo as int),
            s@.len() > 0,
            !((s@[0] == '+' || s@[0] == '-') && s@.len() == 1),
            neg == negated(s@, lo as int),
            limit == (if neg { -lo } else { hi as int }),
            limit <= u64::MAX,
            acc <= limit,
            forall|j: int| 0 <= j < i - start ==> is_digit(#[trigger] d[j]),
            acc == digits_value(d.take(i - start)),
        decreases n - i,
    {
        let c = s.get_char(i);
        assert(c == d[i - start]);
        if !('0' <= c && c <= '9') {
            proof {
                lemma_digit_run(d, i - start);
                assert(digit_run(d) == i - start);
                assert(digits_value(d.take(digit_run(d) as int)) == acc);
            }
            return Err(IntErrorKind::InvalidDigit);
        }
        let dv: u128 = (c as u32 - '0' as u32) as u128;
        proof {
            lemma_digits_step(d, i - start);
        }
        if acc * 10 + dv > limit {
            proof {
                lemma_digit_run(d, i - start + 1);
                lemma_digit_run_bound(d);
                lemma_digits_monotone(d, i - start + 1, digit_run(d) as int);
            }
            if neg {
                return Err(IntErrorKind::NegOverflow);
            } else {
                return Err(IntErrorKind::PosOverflow);
            }
        }
        acc = acc * 10 + dv;
        i += 1;
    }
    proof {
        lemma_digit_run(d, n - start);
        assert(d.take(n - start) =~= d);
    }
    if neg {
        Ok(-(acc as i128))
    } else {
        Ok(acc as i128)
    }
}

/// Whether two texts hold the same characters.
pub fn same_text(a: &str, b: &str) -> (r: bool)
    ensures
        r == (a@ == b@),
{
    let n = a.unicode_len();
    if n != b.unicode_len() {
        return false;
    }
    let mut i: usize = 0;
    while i < n
        invariant
            n == a@.len() == b@.len(),
            i <= n,
            forall|j: int| 0 <= j < i ==> a@[j] == b@[j],
        decreases n - i,
    {
        if a.get_char(i) != b.get_char(i) {
            return false;
        }
        i += 1;
    }
    assert(a@ =~= b@);
    true
}

fn digit_str(n: u64) -> (r: &'static str)
    requires
        n < 10,
    ensures
        r@ == seq![digit_char(n as nat)],
{
    proof {
        reveal_strlit("0");
        reveal_strlit("1");
        reveal_strlit("2");
        reveal_strlit("3");
        reveal_strlit("4");
        reveal_strlit("5");
        reveal_strlit("6");
        reveal_strlit("7");
        reveal_strlit("8");
        reveal_strlit("9");
    }
    match n {
        0 => "0",
        1 => "1",
        2 => "2",
        3 => "3",
        4 => "4",
        5 => "5",
        6 => "6",
        7 => "7",
        8 => "8",
        _ => "9",
    }
}

/// Appends the decimal digits of `n` to `out`.
pub fn append_nat_text(out: &mut String, n: u64)
    ensures
        final(out)@ == old(out)@ + nat_text(n as nat),
    decreases n,
{
    if n >= 10 {
        append_nat_text(out, n / 10);
        out.append(digit_str(n % 10));
        proof {
            assert(old(out)@ + nat_text((n / 10) as nat) + seq![digit_char((n % 10) as nat)] =~= old(out)@
                + nat_text(n as nat));
        }
    } else {
        out.append(digit_str(n));
    }
}

/// The decimal text of an unsigned integer, as `Display` writes it.
pub fn u64_text(v: u64) -> (r: String)
    ensures
        r@ == int_text(v as int),
{
    let mut out = String::new();
    append_nat_text(&mut out, v);
    assert(out@ =~= int_text(v as int));
    out
}

/// The decimal text of a signed integer, as `Display` writes it.
pub fn i64_text(v: i64) -> (r: String)
    ensures
        r@ == int_text(v as int),
{
    let mut out = String::new();
    if v < 0 {
        proof {
            reveal_strlit("-");
        }
        out.append("-");
        let magnitude: u64 = (-(v as i128)) as u64;
        append_nat_text(&mut out, magnitude);
    } else {
        append_nat_text(&mut out, v as u64);
    }
    assert(out@ =~= int_text(v as int));
    out
}

proof fn lemma_digit_roundtrip(c: char)
    requires
        is_digit(c),
    ensures
        digit_char(digit_value(c)) == c,
        digit_value(c) < 10,
{
}

proof fn lemma_leading_digit(d: Seq<char>)
    requires
        d.len() > 0,
        forall|i: int| 0 <= i < d.len() ==> is_digit(#[trigger] d[i]),
    ensures
        digits_value(d) >= digit_value(d[0]),
    decreases d.len(),
{
    if d.len() > 1 {
        let e = d.drop_last();
        assert forall|i: int| 0 <= i < e.len() implies is_digit(#[trigger] e[i]) by {
            assert(e[i] == d[i]);
        }
        lemma_leading_digit(e);
    }
}

/// Digits without superfluous leading zeros are the text of their value.
proof fn lemma_canonical_digits(d: Seq<char>)
    requires
        canonical_digits(d),
    ensures
        nat_text(digits_value(d)) == d,
    decreases d.len(),
{
    let c = d.last();
    assert(is_digit(c));
    lemma_digit_roundtrip(c);
    if d.len() == 1 {
        assert(d.drop_last() =~= Seq::<char>::empty());
        assert(seq![digit_char(digits_value(d))] =~= d);
    } else {
        let e = d.drop_last();
        assert(e[0] == d[0]);
        assert forall|i: int| 0 <= i < e.len() implies is_digit(#[trigger] e[i]) by {
            assert(e[i] == d[i]);
        }
        lemma_canonical_digits(e);
        lemma_leading_digit(e);
        assert(is_digit(d[0]));
        let v = digits_value(e);
        let x = digit_value(c);
        assert(v >= 1);
        assert((v * 10 + x) / 10 == v && (v * 10 + x) % 10 == x) by (nonlinear_arith)
            requires
                x < 10,
        ;
        assert(e.push(c) =~= d);
    }
}

/// A canonical decimal text that reads as an integer of the range is the
/// text that the integer is written as.
pub proof fn lemma_int_text_round_trip(s: Seq<char>, lo: int, hi: int)
    requires
        canonical_int_text(s),
        parse_int(s, lo, hi) is Ok,
    ensures
        int_text(parse_int(s, lo, hi)->Ok_0) == s,
{
    let d = unsigned_part(s, lo);
    if s[0] == '-' {
        assert(negated(s, lo));
        let t = s.skip(1);
        assert(d == t);
        lemma_digit_run(d, d.len() as int);
        assert(d.take(d.len() as int) =~= d);
        lemma_canonical_digits(d);
        lemma_leading_digit(d);
        assert(seq!['-'] + d =~= s);
    } else {
        assert(d == s);
        lemma_digit_run(d, d.len() as int);
        assert(d.take(d.len() as int) =~= d);
        lemma_canonical_digits(d);
    }
}

} // verus!
