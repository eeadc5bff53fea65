//! Exact decimal numbers read from and written to text, as venues quote
//! prices and amounts.
use vstd::prelude::*;
use crate::text::{
    all_digits, char_to_digit, decimal, digit_value, digits_value, lemma_decimal_value,
    lemma_leading_zeros, push_char, u64_to_decimal,
};

verus! {

/// The number `mantissa / 10^scale`, written with `scale` fractional digits.
#[derive(Clone, Copy, PartialEq, Eq, Structural, Debug)]
pub struct Decimal {
    pub mantissa: u64,
    pub scale: u32,
}

/// A decimal point at `p`, with digits on both sides.
pub open spec fn point_at(s: Seq<char>, p: int) -> bool {
    0 < p < s.len() - 1 && s[p] == '.' && all_digits(s.take(p)) && all_digits(s.skip(p + 1))
}

/// The digits of a decimal text with its point removed, and the number of
/// fractional digits: `digits` or `digits.digits`, nothing else.
pub open spec fn decimal_parts(s: Seq<char>) -> Option<(Seq<char>, nat)> {
    if s.len() > 0 && all_digits(s) {
        Some((s, 0))
    } else if exists|p: int| point_at(s, p) {
        let p = choose|p: int| point_at(s, p);
        Some((s.take(p) + s.skip(p + 1), (s.len() - p - 1) as nat))
    } else {
        None
    }
}

/// The decimal that a text denotes, if it is a decimal text whose digits fit.
pub open spec fn parse_spec(s: Seq<char>) -> Option<Decimal> {
    match decimal_parts(s) {
        Some((ds, k)) => if digits_value(ds) <= u64::MAX && k <= u32::MAX {
            Some(Decimal { mantissa: digits_value(ds) as u64, scale: k as u32 })
        } else {
            None
        },
        None => None,
    }
}

/// `t` with leading zeros up to length `n`.
pub open spec fn pad_zeros(t: Seq<char>, n: nat) -> Seq<char> {
    if t.len() < n {
        Seq::new((n - t.len()) as nat, |i: int| '0') + t
    } else {
        t
    }
}

/// The text of a decimal: its mantissa's digits, with at least one digit
/// before the point and exactly `scale` after it.
pub open spec fn render_spec(d: Decimal) -> Seq<char> {
    let t = pad_zeros(decimal(d.mantissa as nat), d.scale as nat + 1);
    let p = t.len() - d.scale;
    if d.scale == 0 {
        t
    } else {
        t.take(p) + seq!['.'] + t.skip(p)
    }
}

proof fn lemma_digits_prefix(s: Seq<char>, i: int)
    requires
        all_digits(s),
        0 <= i <= s.len(),
    ensures
        digits_value(s.take(i)) <= digits_value(s),
        0 <= digits_value(s.take(i)),
    decreases s.len() - i,
{
    lemma_digits_nonneg(s.take(i));
    if i < s.len() {
        lemma_digits_prefix(s, i + 1);
        let t = s.take(i + 1);
        assert(t.drop_last() =~= s.take(i));
        assert(digit_value(t.last()).is_some()) by {
            assert(t.last() == s[i]);
        }
    } else {
        assert(s.take(i) =~= s);
    }
}

proof fn lemma_digits_nonneg(s: Seq<char>)
    ensures
        digits_value(s) >= 0,
    decreases s.len(),
{
    if s.len() > 0 {
        lemma_digits_nonneg(s.drop_last());
        let d = digit_value(s.last());
        assert(d.unwrap_or(0) >= 0);
    }
}

proof fn lemma_digits_step(s: Seq<char>, i: int, d: int)
    requires
        0 <= i < s.len(),
        digit_value(s[i]) == Some(d),
    ensures
        digits_value(s.take(i + 1)) == digits_value(s.take(i)) * 10 + d,
{
    assert(s.take(i + 1).drop_last() =~= s.take(i));
}

/// Writing a decimal and reading the text back gives the same decimal.
pub proof fn lemma_render_roundtrip(d: Decimal)
    ensures
        parse_spec(render_spec(d)) == Some(d),
{
    let m = d.mantissa as nat;
    let k = d.scale as nat;
    let ds = decimal(m);
    lemma_decimal_value(m);
    let t = pad_zeros(ds, k + 1);
    let z: nat = if ds.len() < k + 1 { (k + 1 - ds.len()) as nat } else { 0 };
    assert(t =~= Seq::new(z, |i: int| '0') + ds);
    lemma_leading_zeros(z, ds);
    assert(all_digits(t)) by {
        assert forall|i: int| 0 <= i < t.len() implies (#[trigger] digit_value(t[i])).is_some() by {
            if i >= z {
                assert(t[i] == ds[i - z]);
            }
        }
    }
    let r = render_spec(d);
    if k == 0 {
        assert(r == t);
    } else {
        let p = t.len() - k;
        assert(r =~= t.take(p) + seq!['.'] + t.skip(p));
        assert(r.take(p) =~= t.take(p));
        assert(r.skip(p + 1) =~= t.skip(p));
        assert(r[p] == '.');
        assert(digit_value('.') is None);
        assert(!all_digits(r));
        assert(all_digits(r.take(p))) by {
            assert forall|i: int| 0 <= i < p implies (#[trigger] digit_value(r.take(p)[i])).is_some() by {
                assert(r.take(p)[i] == t[i]);
            }
        }
        assert(all_digits(r.skip(p + 1))) by {
            assert forall|i: int| 0 <= i < r.skip(p + 1).len() implies (#[trigger] digit_value(r.skip(p + 1)[i])).is_some() by {
                assert(r.skip(p + 1)[i] == t[p + i]);
            }
        }
        assert(point_at(r, p));
        let q = choose|q: int| point_at(r, q);
        assert(q == p) by {
            if q < p {
                assert(r[q] == t[q]);
            } else if q > p {
                assert(r[q] == t[q - 1]);
            }
        }
        assert(r.take(p) + r.skip(p + 1) =~= t);
    }
}

/// Reads a decimal text: digits, optionally a point and more digits.
/// Anything else, or a mantissa that does not fit in `u64`, is refused.
pub fn parse_decimal(s: &str) -> (r: Option<Decimal>)
    ensures
        r == parse_spec(s@),
{
    let n = s.unicode_len();
    let mut i: usize = 0;
    while i < n && s.get_char(i) != '.'
        invariant
            n == s@.len(),
            i <= n,
            forall|j: int| 0 <= j < i ==> s@[j] != '.',
        decreases n - i,
    {
        i = i + 1;
    }
    // `point` is the first '.', or `n` when there is none.
    let point = i;
    let ghost ds: Seq<char> = if point == n { s@ } else { s@.take(point as int) + s@.skip(point + 1) };
    if n == 0 || (point < n && (point == 0 || point + 1 == n)) {
        proof {
            if n > 0 {
                assert(!all_digits(s@)) by {
                    assert(digit_value(s@[point as int]) is None);
                }
                assert forall|p: int| !point_at(s@, p) by {
                    if point_at(s@, p) {
                        if p < point { assert(s@[p] != '.'); }
                        else if p > point {
                            assert(s@.take(p)[point as int] == '.');
                            assert(digit_value(s@.take(p)[point as int]) is None);
                        }
                    }
                }
            }
        }
        return None;
    }
    let mut mantissa: u64 = 0;
    let mut k: usize = 0;
    let total: usize = if point == n { n } else { n - 1 };
    assert(ds.len() == total);
    while k < total
        invariant
            n == s@.len(),
            point <= n,
            total == ds.len(),
            k <= total,
            ds == (if point == n { s@ } else { s@.take(point as int) + s@.skip(point + 1) }),
            point < n ==> (s@[point as int] == '.' && 0 < point && point + 1 < n),
            forall|j: int| 0 <= j < point ==> s@[j] != '.',
            0 < n,
            all_digits(ds.take(k as int)),
            mantissa == digits_value(ds.take(k as int)),
        decreases total - k,
    {
        let c = if k < point { s.get_char(k) } else { s.get_char(k + 1) };
        assert(c == ds[k as int]);
        let d = match char_to_digit(c) {
            Some(d) => d,
            None => {
                proof { self::lemma_refused_digit(s@, point as int, k as int); }
                return None;
            },
        };
        proof {
            lemma_digits_step(ds, k as int, d as int);
            assert forall|j: int| 0 <= j < k + 1 implies (#[trigger] digit_value(ds.take(k + 1)[j])).is_some() by {
                if j < k { assert(ds.take(k + 1)[j] == ds.take(k as int)[j]); }
            }
        }
        if mantissa > (u64::MAX - d) / 10 {
            proof {
                assert(mantissa * 10 + d > u64::MAX) by (nonlinear_arith)
                    requires mantissa > (u64::MAX - d) / 10, d <= 9;
                self::lemma_overflow_refused(s@, point as int, ds, k as int + 1);
            }
            return None;
        }
        mantissa = mantissa * 10 + d;
        k = k + 1;
    }
    assert(ds.take(total as int) =~= ds);
    let scale_n: usize = if point == n { 0 } else { n - point - 1 };
    if scale_n > u32::MAX as usize {
        proof { self::lemma_parts(s@, point as int, ds); }
        return None;
    }
    proof { self::lemma_parts(s@, point as int, ds); }
    Some(Decimal { mantissa, scale: scale_n as u32 })
}

/// With the first point at `point` (or none when it is `s.len()`), the parts
/// of an all-digit `ds` are `ds` and the count of digits after the point.
proof fn lemma_parts(s: Seq<char>, point: int, ds: Seq<char>)
    requires
        0 < s.len(),
        0 <= point <= s.len(),
        point < s.len() ==> (s[point] == '.' && 0 < point && point + 1 < s.len()),
        forall|j: int| 0 <= j < point ==> s[j] != '.',
        ds == (if point == s.len() { s } else { s.take(point) + s.skip(point + 1) }),
        all_digits(ds),
    ensures
        decimal_parts(s) == Some((ds, (if point == s.len() { 0 } else { s.len() - point - 1 }) as nat)),
{
    if point < s.len() {
        assert(digit_value(s[point]) is None);
        assert(!all_digits(s));
        assert(all_digits(s.take(point))) by {
            assert forall|i: int| 0 <= i < point implies (#[trigger] digit_value(s.take(point)[i])).is_some() by {
                assert(s.take(point)[i] == ds[i]);
            }
        }
        assert(all_digits(s.skip(point + 1))) by {
            assert forall|i: int| 0 <= i < s.skip(point + 1).len() implies (#[trigger] digit_value(s.skip(point + 1)[i])).is_some() by {
                assert(s.skip(point + 1)[i] == ds[point + i]);
            }
        }
        assert(point_at(s, point));
        let q = choose|q: int| point_at(s, q);
        assert(q == point) by {
            if q > point {
                assert(s.take(q)[point] == '.');
                assert(digit_value(s.take(q)[point]) is None);
            }
        }
    }
}

/// A character that is neither a digit nor the first point makes the text no decimal.
proof fn lemma_refused_digit(s: Seq<char>, point: int, k: int)
    requires
        0 <= point <= s.len(),
        point < s.len() ==> s[point] == '.',
        forall|j: int| 0 <= j < point ==> s[j] != '.',
        0 <= k,
        point == s.len() ==> k < s.len(),
        point < s.len() ==> k < s.len() - 1,
        digit_value(if k < point { s[k] } else { s[k + 1] }) is None,
    ensures
        decimal_parts(s) is None,
{
    let c = if k < point { s[k] } else { s[k + 1] };
    let idx = if k < point { k } else { k + 1 };
    assert(s[idx] == c);
    assert(!all_digits(s));
    assert forall|p: int| !point_at(s, p) by {
        if point_at(s, p) {
            if idx == p {
                if idx > point {
                    assert(s.take(p)[point] == '.');
                    assert(digit_value(s.take(p)[point]) is None);
                }
            } else if idx < p {
                assert(s.take(p)[idx] == c);
            } else if idx > p {
                assert(s.skip(p + 1)[idx - p - 1] == c);
            }
        }
    }
}

/// A prefix of the digits that already exceeds `u64` makes the text refused.
proof fn lemma_overflow_refused(s: Seq<char>, point: int, ds: Seq<char>, k: int)
    requires
        0 < s.len(),
        0 <= point <= s.len(),
        point < s.len() ==> (s[point] == '.' && 0 < point && point + 1 < s.len()),
        forall|j: int| 0 <= j < point ==> s[j] != '.',
        ds == (if point == s.len() { s } else { s.take(point) + s.skip(point + 1) }),
        0 < k <= ds.len(),
        all_digits(ds.take(k)),
        digits_value(ds.take(k)) > u64::MAX,
    ensures
        parse_spec(s) is None,
{
    if all_digits(ds) {
        lemma_digits_prefix(ds, k);
        lemma_parts(s, point, ds);
    } else {
        let i = choose|i: int| 0 <= i < ds.len() && !(#[trigger] digit_value(ds[i])).is_some();
        if point == s.len() {
            lemma_refused_digit(s, point, i);
        } else if i < point {
            assert(ds[i] == s[i]);
            lemma_refused_digit(s, point, i);
        } else {
            assert(ds[i] == s[i + 1]);
            lemma_refused_digit(s, point, i);
        }
    }
}

/// Writes a decimal with exactly `scale` fractional digits.
pub fn render_decimal(d: Decimal) -> (r: String)
    ensures
        r@ == render_spec(d),
{
    let digits = u64_to_decimal(d.mantissa);
    let len = digits.unicode_len();
    let width: u64 = d.scale as u64 + 1;
    let zeros: u64 = if (len as u64) < width { width - len as u64 } else { 0 };
    let ghost t = pad_zeros(decimal(d.mantissa as nat), d.scale as nat + 1);
    proof {
        lemma_decimal_value(d.mantissa as nat);
        assert(t =~= Seq::new(zeros as nat, |i: int| '0') + digits@);
    }
    let total: u64 = zeros + len as u64;
    let point: u64 = total - d.scale as u64;
    let mut out = String::new();
    let mut i: u64 = 0;
    while i < total
        invariant
            t.len() == total,
            t == Seq::new(zeros as nat, |i: int| '0') + digits@,
            len == digits@.len(),
            total == zeros + len,
            point == total - d.scale,
            i <= total,
            d.scale == 0 ==> out@ == t.take(i as int),
            d.scale > 0 && i <= point ==> out@ == t.take(i as int),
            d.scale > 0 && i > point ==> out@ == t.take(point as int) + seq!['.'] + t.subrange(point as int, i as int),
        decreases total - i,
    {
        if d.scale > 0 && i == point {
            push_char(&mut out, '.');
        }
        let c = if i < zeros { '0' } else { digits.get_char((i - zeros) as usize) };
        assert(c == t[i as int]);
        push_char(&mut out, c);
        proof {
            if d.scale == 0 || i < point {
                assert(out@ =~= t.take(i + 1));
            } else {
                assert(out@ =~= t.take(point as int) + seq!['.'] + t.subrange(point as int, i + 1));
            }
        }
        i = i + 1;
    }
    proof {
        if d.scale > 0 {
            assert(t.subrange(point as int, total as int) =~= t.skip(point as int));
        } else {
            assert(t.take(total as int) =~= t);
        }
    }
    out
}

} // verus!
