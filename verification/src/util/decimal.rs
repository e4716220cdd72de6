//! Non-negative decimal numbers with a fixed number of fractional digits,
//! as gas prices and gas adjustments are written.

use super::num::{
    all_digits, decimal_value, is_decimal_digit, is_digit, lemma_decimal_value_prefix,
    lemma_decimal_value_push, push_digit,
};
use vstd::prelude::*;

verus! {

/// The most fractional digits that a `Decimal` can have.
pub const MAX_SCALE: u8 = 18;

/// Ten to the power of `n`.
pub open spec fn pow10(n: nat) -> nat
    decreases n,
{
    if n == 0 {
        1
    } else {
        10 * pow10((n - 1) as nat)
    }
}

/// The quotient of `a` by `b`, rounded up.
pub open spec fn ceil_div(a: nat, b: nat) -> nat
    recommends
        b > 0,
{
    if a % b == 0 {
        a / b
    } else {
        a / b + 1
    }
}

/// The number `units / 10^scale`.
pub ghost struct DecimalView {
    pub units: nat,
    pub scale: nat,
}

impl DecimalView {
    /// The product of `x` and this number, rounded up to a whole number.
    pub open spec fn ceil_mul(self, x: nat) -> nat {
        ceil_div(x * self.units, pow10(self.scale))
    }
}

/// A non-negative decimal number: `units / 10^scale`, with at most 18
/// fractional digits.
#[derive(Clone, Copy, Debug, PartialEq, Eq)]
pub struct Decimal {
    units: u64,
    scale: u8,
}

impl View for Decimal {
    type V = DecimalView;

    closed spec fn view(&self) -> DecimalView {
        DecimalView { units: self.units as nat, scale: self.scale as nat }
    }
}

/// Where the digits at the start of `s` end: all before `p` are digits, and
/// `p` is the end of the string or the place of another character.
pub open spec fn is_digits_end(s: Seq<char>, p: int) -> bool {
    &&& 0 <= p <= s.len()
    &&& all_digits(s.take(p))
    &&& (p == s.len() || !is_digit(s[p]))
}

/// The number of digits at the start of `s`.
pub open spec fn digits_end(s: Seq<char>) -> int {
    choose|p: int| is_digits_end(s, p)
}

/// The decimal number that `s` is read as: one or more digits, which may be
/// followed by a point and 1 to 18 more digits. `None` where the string is
/// of another form or its digits, read as one number, do not fit in 64 bits.
pub open spec fn parsed_decimal(s: Seq<char>) -> Option<DecimalView> {
    let p = digits_end(s);
    let whole = s.take(p);
    let frac = s.skip(p + 1);
    if p == 0 {
        None
    } else if p == s.len() {
        if decimal_value(s) <= u64::MAX {
            Some(DecimalView { units: decimal_value(s), scale: 0 })
        } else {
            None
        }
    } else if s[p] == '.' && 0 < frac.len() <= MAX_SCALE && all_digits(frac) && decimal_value(
        whole + frac,
    ) <= u64::MAX {
        Some(DecimalView { units: decimal_value(whole + frac), scale: frac.len() })
    } else {
        None
    }
}

/// The digits at the start of a string end at one place only.
pub proof fn lemma_digits_end_unique(s: Seq<char>, p: int)
    requires
        is_digits_end(s, p),
    ensures
        digits_end(s) == p,
{
    let q = digits_end(s);
    if q < p {
        assert(s.take(p)[q] == s[q]);
    } else if p < q {
        assert(s.take(q)[p] == s[p]);
    }
}

/// The powers of ten grow, and the eighteenth is a one with eighteen zeros.
pub proof fn lemma_pow10_bounds(n: nat)
    requires
        n <= 18,
    ensures
        1 <= pow10(n) <= 1_000_000_000_000_000_000,
{
    lemma_pow10_monotonic(n, 18);
    assert(pow10(18) == 1_000_000_000_000_000_000) by {
        reveal_with_fuel(pow10, 19);
    }
}

/// A higher power of ten is no smaller.
pub proof fn lemma_pow10_monotonic(n: nat, m: nat)
    requires
        n <= m,
    ensures
        1 <= pow10(n) <= pow10(m),
    decreases m,
{
    if n < m {
        lemma_pow10_monotonic(n, (m - 1) as nat);
    } else if n > 0 {
        lemma_pow10_monotonic((n - 1) as nat, (n - 1) as nat);
    }
}

impl Decimal {
    /// The number `units / 10^scale`; `None` where `scale` is over 18.
    pub fn new(units: u64, scale: u8) -> (r: Option<Decimal>)
        ensures
            r matches Some(d) ==> d@ == (DecimalView { units: units as nat, scale: scale as nat }),
            r is Some <==> scale <= MAX_SCALE,
    {
        if scale <= MAX_SCALE {
            Some(Decimal { units, scale })
        } else {
            None
        }
    }

    #[verifier::type_invariant]
    spec fn inv(self) -> bool {
        self.scale <= MAX_SCALE
    }

    /// The digits of the number, read as a whole number.
    pub fn units(&self) -> (u: u64)
        ensures
            u == self@.units,
    {
        self.units
    }

    /// The number of fractional digits.
    pub fn scale(&self) -> (s: u8)
        ensures
            s == self@.scale,
            s <= MAX_SCALE,
    {
        proof {
            use_type_invariant(self);
        }
        self.scale
    }

    /// Reads a decimal number: digits, and optionally a point and up to 18
    /// more digits.
    pub fn parse(s: &str) -> (r: Option<Decimal>)
        ensures
            match r {
                Some(d) => parsed_decimal(s@) == Some(d@),
                None => parsed_decimal(s@) is None,
            },
    {
        let n = s.unicode_len();
        let mut acc: u64 = 0;
        let mut i: usize = 0;
        assert(s@.take(0) =~= Seq::<char>::empty());
        // The digits before the point.
        loop
            invariant_except_break
                0 <= i <= n,
                n == s@.len(),
                all_digits(s@.take(i as int)),
                acc == decimal_value(s@.take(i as int)),
            ensures
                0 <= i <= n,
                n == s@.len(),
                is_digits_end(s@, i as int),
                acc == decimal_value(s@.take(i as int)),
            decreases n - i,
        {
            if i >= n {
                break ;
            }
            let c = s.get_char(i);
            if !is_decimal_digit(c) {
                break ;
            }
            proof {
                let before = s@.take(i as int);
                let after = s@.take(i + 1);
                assert(after =~= before.push(c));
                lemma_decimal_value_push(before, c);
                assert forall|j: int| 0 <= j < after.len() implies is_digit(#[trigger] after[j]) by {
                    if j < before.len() {
                        assert(after[j] == before[j]);
                    }
                }
            }
            match push_digit(acc, c) {
                Some(next) => {
                    acc = next;
                },
                None => {
                    proof {
                        lemma_overflow_is_none(s@, i + 1);
                    }
                    return None;
                },
            }
            i += 1;
        }
        proof {
            lemma_digits_end_unique(s@, i as int);
        }
        let p = i;
        if p == 0 {
            return None;
        }
        if p == n {
            assert(s@.take(n as int) =~= s@);
            return Some(Decimal { units: acc, scale: 0 });
        }
        if s.get_char(p) != '.' {
            return None;
        }
        if n - p - 1 == 0 || n - p - 1 > MAX_SCALE as usize {
            return None;
        }
        let ghost whole = s@.take(p as int);
        let ghost frac = s@.skip(p + 1);
        let ghost digits = whole + frac;
        i = p + 1;
        assert((whole + frac.take(0)) =~= whole);
        // The digits after the point.
        while i < n
            invariant
                p + 1 <= i <= n,
                n == s@.len(),
                whole == s@.take(p as int),
                frac == s@.skip(p + 1),
                digits == whole + frac,
                digits_end(s@) == p,
                0 < p < n,
                s@[p as int] == '.',
                0 < frac.len() <= MAX_SCALE,
                all_digits(whole),
                all_digits(frac.take(i - p - 1)),
                acc == decimal_value(whole + frac.take(i - p - 1)),
            decreases n - i,
        {
            let c = s.get_char(i);
            assert(frac[i - p - 1] == c);
            if !is_decimal_digit(c) {
                return None;
            }
            proof {
                let before = whole + frac.take(i - p - 1);
                let after = whole + frac.take(i - p);
                assert(after =~= before.push(c));
                lemma_decimal_value_push(before, c);
                assert forall|j: int| 0 <= j < frac.take(i - p).len() implies is_digit(
                    #[trigger] frac.take(i - p)[j],
                ) by {
                    if j < i - p - 1 {
                        assert(frac.take(i - p)[j] == frac.take(i - p - 1)[j]);
                    }
                }
                if all_digits(frac) {
                    assert(all_digits(digits)) by {
                        assert forall|j: int| 0 <= j < digits.len() implies is_digit(
                            #[trigger] digits[j],
                        ) by {
                            if j < whole.len() {
                                assert(digits[j] == whole[j]);
                            } else {
                                assert(digits[j] == frac[j - whole.len()]);
                            }
                        }
                    }
                    assert(digits.take(i as int) =~= after);
                    lemma_decimal_value_prefix(digits, i as int);
                }
            }
            match push_digit(acc, c) {
                Some(next) => {
                    acc = next;
                },
                None => {
                    return None;
                },
            }
            i += 1;
        }
        assert(frac.take(n - p - 1) =~= frac);
        let scale: u8 = (n - p - 1) as u8;
        Some(Decimal { units: acc, scale })
    }

    /// Ten to the power of the number of fractional digits.
    fn denominator(&self) -> (d: u64)
        ensures
            d == pow10(self@.scale),
            1 <= d <= 1_000_000_000_000_000_000,
    {
        proof {
            use_type_invariant(self);
        }
        let mut d: u64 = 1;
        let mut k: u8 = 0;
        while k < self.scale
            invariant
                0 <= k <= self.scale <= MAX_SCALE,
                d == pow10(k as nat),
                1 <= d <= 1_000_000_000_000_000_000,
            decreases self.scale - k,
        {
            proof {
                lemma_pow10_bounds((k + 1) as nat);
            }
            d = d * 10;
            k += 1;
        }
        d
    }

    /// The product of `x` and this number, rounded up to a whole number;
    /// `u64::MAX` where the product is larger than that.
    pub fn ceil_mul(&self, x: u64) -> (r: u64)
        ensures
            r == (if self@.ceil_mul(x as nat) <= u64::MAX {
                self@.ceil_mul(x as nat)
            } else {
                u64::MAX as nat
            }),
    {
        let den: u128 = self.denominator() as u128;
        assert(x * self.units <= 0xffff_ffff_ffff_ffff * 0xffff_ffff_ffff_ffff) by (nonlinear_arith)
            requires
                0 <= x <= 0xffff_ffff_ffff_ffff,
                0 <= self.units <= 0xffff_ffff_ffff_ffff,
        ;
        let product: u128 = (x as u128) * (self.units as u128);
        let quotient: u128 = product / den;
        let rounded: u128 = if product % den == 0 {
            quotient
        } else {
            quotient + 1
        };
        if rounded > u64::MAX as u128 {
            u64::MAX
        } else {
            rounded as u64
        }
    }
}

/// Where a prefix of the digits at the start of `s` is too large for 64
/// bits, `s` is read as no number.
proof fn lemma_overflow_is_none(s: Seq<char>, k: int)
    requires
        0 < k <= s.len(),
        all_digits(s.take(k)),
        decimal_value(s.take(k)) > u64::MAX,
    ensures
        parsed_decimal(s) is None,
{
    let p = digits_end(s);
    let whole = s.take(p);
    let frac = s.skip(p + 1);
    lemma_digits_end_exists(s, k);
    assert(is_digits_end(s, p));
    if p < k {
        assert(s.take(k)[p] == s[p]);
    }
    assert(k <= p);
    assert(whole.take(k) =~= s.take(k));
    lemma_decimal_value_prefix(whole, k);
    if p == s.len() {
        assert(whole =~= s);
    } else if all_digits(frac) {
        let digits = whole + frac;
        assert(all_digits(digits)) by {
            assert forall|j: int| 0 <= j < digits.len() implies is_digit(#[trigger] digits[j]) by {
                if j < whole.len() {
                    assert(digits[j] == whole[j]);
                } else {
                    assert(digits[j] == frac[j - whole.len()]);
                }
            }
        }
        assert(digits.take(p) =~= whole);
        lemma_decimal_value_prefix(digits, p);
    }
}

/// The digits at the start of a string end somewhere.
proof fn lemma_digits_end_exists(s: Seq<char>, k: int)
    requires
        0 <= k <= s.len(),
        all_digits(s.take(k)),
    ensures
        is_digits_end(s, digits_end(s)),
    decreases s.len() - k,
{
    if k == s.len() || !is_digit(s[k]) {
        assert(is_digits_end(s, k));
    } else {
        assert forall|j: int| 0 <= j < s.take(k + 1).len() implies is_digit(
            #[trigger] s.take(k + 1)[j],
        ) by {
            if j < k {
                assert(s.take(k + 1)[j] == s.take(k)[j]);
            }
        }
        lemma_digits_end_exists(s, k + 1);
    }
}

} // verus!
