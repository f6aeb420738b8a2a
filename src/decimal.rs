//! Fixed-point decimals: reading a price from its text, and writing a mean
//! rounded to hundredths.
use vstd::prelude::*;
use crate::window::Mean;

verus! {

/// Units of 10^-8 in one.
pub const PRICE_SCALE: u64 = 100_000_000;

pub open spec fn is_digit(c: char) -> bool {
    '0' <= c && c <= '9'
}

pub open spec fn digit_value(c: char) -> int {
    (c as u32) as int - ('0' as u32) as int
}

pub open spec fn all_digits(s: Seq<char>) -> bool {
    forall|i: int| 0 <= i < s.len() ==> is_digit(#[trigger] s[i])
}

/// The value of a run of decimal digits, most significant first.
pub open spec fn digits_value(s: Seq<char>) -> int
    decreases s.len(),
{
    if s.len() == 0 {
        0
    } else {
        digits_value(s.drop_last()) * 10 + digit_value(s.last())
    }
}

/// The `i`-th digit after the point, zero past the end.
pub open spec fn fraction_digit(f: Seq<char>, i: int) -> int {
    if i < f.len() {
        digit_value(f[i])
    } else {
        0
    }
}

/// The value of the first `n` digits after the point, padded with zeros.
pub open spec fn fraction_prefix(f: Seq<char>, n: nat) -> int
    decreases n,
{
    if n == 0 {
        0
    } else {
        fraction_prefix(f, (n - 1) as nat) * 10 + fraction_digit(f, n - 1)
    }
}

/// The length of the sign: a leading `-` or `+`.
pub open spec fn sign_len(s: Seq<char>) -> int {
    if s.len() > 0 && (s[0] == '-' || s[0] == '+') {
        1
    } else {
        0
    }
}

pub open spec fn is_negative(s: Seq<char>) -> bool {
    s.len() > 0 && s[0] == '-'
}

/// The index of the first `.` at or after `i`, or the length when there is none.
pub open spec fn find_point(s: Seq<char>, i: int) -> int
    decreases s.len() - i,
{
    if i >= s.len() {
        s.len() as int
    } else if s[i] == '.' {
        i
    } else {
        find_point(s, i + 1)
    }
}

pub open spec fn point_of(s: Seq<char>) -> int {
    find_point(s, sign_len(s))
}

/// The digits before the point.
pub open spec fn whole_part(s: Seq<char>) -> Seq<char> {
    s.subrange(sign_len(s), point_of(s))
}

/// The digits after the point.
pub open spec fn fraction_part(s: Seq<char>) -> Seq<char> {
    if point_of(s) < s.len() {
        s.subrange(point_of(s) + 1, s.len() as int)
    } else {
        Seq::<char>::empty()
    }
}

/// A decimal: an optional sign, digits, and optionally a point and more digits,
/// with at least one digit in all.
pub open spec fn is_decimal(s: Seq<char>) -> bool {
    &&& all_digits(whole_part(s))
    &&& all_digits(fraction_part(s))
    &&& whole_part(s).len() + fraction_part(s).len() > 0
}

/// The magnitude of a decimal in units of 10^-8; digits past the eighth
/// after the point are dropped.
pub open spec fn decimal_units(s: Seq<char>) -> int {
    digits_value(whole_part(s)) * 100_000_000 + fraction_prefix(fraction_part(s), 8)
}

/// The price that a text denotes, in units of 10^-8, when it is a decimal
/// whose value fits in an `i64`.
pub open spec fn price_of(s: Seq<char>) -> Option<i64> {
    if !is_decimal(s) {
        None
    } else if is_negative(s) {
        if decimal_units(s) <= 0x8000_0000_0000_0000 {
            Some((-decimal_units(s)) as i64)
        } else {
            None
        }
    } else if decimal_units(s) <= 0x7fff_ffff_ffff_ffff {
        Some(decimal_units(s) as i64)
    } else {
        None
    }
}

/// Above this whole part a price cannot fit in an `i64`.
const WHOLE_CAP: u64 = 100_000_000_000;

/// Ten to the power `m`, for `m` from 0 to 8.
spec fn ten_to(m: int) -> int {
    if m <= 0 {
        1
    } else if m == 1 {
        10
    } else if m == 2 {
        100
    } else if m == 3 {
        1_000
    } else if m == 4 {
        10_000
    } else if m == 5 {
        100_000
    } else if m == 6 {
        1_000_000
    } else if m == 7 {
        10_000_000
    } else {
        100_000_000
    }
}

spec fn capped(v: int) -> int {
    if v > WHOLE_CAP {
        WHOLE_CAP + 1
    } else {
        v
    }
}

/// Reads a price from its decimal text, in units of 10^-8. `None` when the
/// text is not a decimal or its value does not fit in an `i64`.
///
/// Prices are fixed-point, so there is no value for `NaN` or an infinity:
/// those texts, and decimals written with an exponent such as `1e5`, are
/// refused here, where a floating-point reader would accept them.
pub fn parse_price(text: &str) -> (r: Option<i64>)
    ensures
        r == price_of(text@),
{
    let ghost s = text@;
    let n = text.unicode_len();
    let mut sl: usize = 0;
    let mut negative = false;
    if n > 0 {
        let c0 = text.get_char(0);
        if c0 == '-' || c0 == '+' {
            sl = 1;
            negative = c0 == '-';
        }
    }
    assert(sl == sign_len(s));
    assert(negative == is_negative(s));
    let mut p: usize = sl;
    while p < n && text.get_char(p) != '.'
        invariant
            sl <= p <= n,
            n == s.len(),
            s == text@,
            find_point(s, sl as int) == find_point(s, p as int),
        decreases n - p,
    {
        p = p + 1;
    }
    assert(p as int == point_of(s));
    let mut acc: u64 = 0;
    let mut j: usize = sl;
    while j < p
        invariant
            sl <= j <= p <= n,
            n == s.len(),
            s == text@,
            sl == sign_len(s),
            p == point_of(s),
            all_digits(s.subrange(sl as int, j as int)),
            acc == capped(digits_value(s.subrange(sl as int, j as int))),
        decreases p - j,
    {
        let c = text.get_char(j);
        if !('0' <= c && c <= '9') {
            assert(whole_part(s)[j - sl] == c);
            return None;
        }
        let ghost prev = s.subrange(sl as int, j as int);
        assert(s.subrange(sl as int, j as int + 1).drop_last() =~= prev);
        assert(s.subrange(sl as int, j as int + 1) =~= prev.push(c));
        if acc <= WHOLE_CAP {
            acc = acc * 10 + ((c as u32) - ('0' as u32)) as u64;
            if acc > WHOLE_CAP {
                acc = WHOLE_CAP + 1;
            }
        }
        j = j + 1;
    }
    assert(s.subrange(sl as int, p as int) =~= whole_part(s));
    let fs: usize = if p < n { p + 1 } else { n };
    assert(s.subrange(fs as int, n as int) =~= fraction_part(s));
    let mut k: usize = fs;
    while k < n
        invariant
            fs <= k <= n,
            n == s.len(),
            s == text@,
            s.subrange(fs as int, n as int) == fraction_part(s),
            all_digits(s.subrange(fs as int, k as int)),
        decreases n - k,
    {
        let c = text.get_char(k);
        if !('0' <= c && c <= '9') {
            assert(fraction_part(s)[k - fs] == c);
            return None;
        }
        assert(s.subrange(fs as int, k as int + 1) =~= s.subrange(fs as int, k as int).push(c));
        k = k + 1;
    }
    if p - sl + (n - fs) == 0 {
        return None;
    }
    let ghost f = fraction_part(s);
    let mut frac: u64 = 0;
    let mut m: usize = 0;
    while m < 8
        invariant
            m <= 8,
            fs <= n,
            n == s.len(),
            s == text@,
            f == s.subrange(fs as int, n as int),
            all_digits(f),
            frac == fraction_prefix(f, m as nat),
            frac < ten_to(m as int),
        decreases 8 - m,
    {
        let mut d: u64 = 0;
        if m < n - fs {
            let c = text.get_char(fs + m);
            assert(f[m as int] == c);
            d = ((c as u32) - ('0' as u32)) as u64;
        }
        assert(d == fraction_digit(f, m as int));
        frac = frac * 10 + d;
        m = m + 1;
    }
    if acc > WHOLE_CAP {
        return None;
    }
    let units: u64 = acc * PRICE_SCALE + frac;
    if negative {
        if units <= 0x8000_0000_0000_0000 {
            if units == 0x8000_0000_0000_0000 {
                Some(i64::MIN)
            } else {
                Some(-(units as i64))
            }
        } else {
            None
        }
    } else if units <= 0x7fff_ffff_ffff_ffff {
        Some(units as i64)
    } else {
        None
    }
}

pub open spec fn abs(v: int) -> nat {
    if v < 0 {
        (-v) as nat
    } else {
        v as nat
    }
}

/// The mean `total / count`, where `total` counts units of 10^-8, in
/// hundredths, rounded to the nearest with halves away from zero; 0 when
/// `count` is 0.
pub open spec fn rounded_hundredths(total: int, count: nat) -> int {
    if count == 0 {
        0
    } else {
        let d = count * 1_000_000;
        let m = abs(total);
        let q = m / d + if 2 * (m % d) >= d { 1int } else { 0int };
        if total < 0 {
            -q
        } else {
            q
        }
    }
}

/// The ASCII decimal digits of `n`, without leading zeros.
pub open spec fn decimal_text(n: nat) -> Seq<u8>
    decreases n,
{
    if n < 10 {
        seq![(48 + n) as u8]
    } else {
        decimal_text(n / 10).push((48 + n % 10) as u8)
    }
}

/// A count of hundredths written with two digits after the point.
pub open spec fn hundredths_text(q: int) -> Seq<u8> {
    let a = abs(q);
    let sign = if q < 0 { seq![45u8] } else { Seq::<u8>::empty() };
    sign + decimal_text(a / 100) + seq![46u8, (48 + (a % 100) / 10) as u8, (48 + a % 10) as u8]
}

/// The text of a mean: rounded to hundredths, two digits after the point.
pub open spec fn mean_text(m: (int, nat)) -> Seq<u8> {
    hundredths_text(rounded_hundredths(m.0, m.1))
}

fn push_decimal(n: u128, out: &mut Vec<u8>)
    ensures
        final(out)@ == old(out)@ + decimal_text(n as nat),
    decreases n,
{
    let ghost start = out@;
    if n >= 10 {
        push_decimal(n / 10, out);
    }
    out.push((48 + n % 10) as u8);
    assert(final(out)@ =~= start + decimal_text(n as nat));
}

/// Writes a mean as ASCII text with two digits after the point, for example
/// `42016.73`; a mean over no prices is written `0.00`.
pub fn format_mean(m: &Mean) -> (r: Vec<u8>)
    ensures
        r@ == mean_text(m@),
{
    let mut q: u128 = 0;
    let total = m.total;
    if m.count > 0 {
        let mag: u128 = if total < 0 {
            ((-(total + 1)) as u128) + 1
        } else {
            total as u128
        };
        assert(mag as int == abs(total as int));
        let d: u128 = (m.count as u128) * 1_000_000;
        q = mag / d;
        if (mag % d) * 2 >= d {
            q = q + 1;
        }
    }
    let mut out: Vec<u8> = Vec::new();
    if total < 0 && q > 0 {
        out.push(45u8);
    }
    push_decimal(q / 100, &mut out);
    out.push(46u8);
    out.push((48 + (q % 100) / 10) as u8);
    out.push((48 + q % 10) as u8);
    assert(out@ =~= mean_text(m@));
    out
}

/// A mean over no prices is written `0.00`.
pub proof fn lemma_empty_mean_text(total: int)
    ensures
        mean_text((total, 0)) == seq![48u8, 46u8, 48u8, 48u8],
{
    assert(decimal_text(0) == seq![48u8]);
    assert(mean_text((total, 0)) =~= seq![48u8, 46u8, 48u8, 48u8]);
}

} // verus!
