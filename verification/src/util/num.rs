//! Reading unsigned decimal numbers.

use vstd::prelude::*;

verus! {

/// Whether `c` is one of the ten decimal digits.
pub open spec fn is_digit(c: char) -> bool {
    '0' <= c <= '9'
}

/// The number that a decimal digit stands for.
pub open spec fn digit_of(c: char) -> nat {
    (c as int - '0' as int) as nat
}

/// Whether every character of `s` is a decimal digit.
pub open spec fn all_digits(s: Seq<char>) -> bool {
    forall|i: int| 0 <= i < s.len() ==> is_digit(#[trigger] s[i])
}

/// The number that a string of decimal digits stands for.
pub open spec fn decimal_value(s: Seq<char>) -> nat
    decreases s.len(),
{
    if s.len() == 0 {
        0
    } else {
        decimal_value(s.drop_last()) * 10 + digit_of(s.last())
    }
}

/// The digits of an unsigned number: the string without a leading plus sign.
pub open spec fn unsigned_digits(s: Seq<char>) -> Seq<char> {
    if s.len() > 0 && s[0] == '+' {
        s.skip(1)
    } else {
        s
    }
}

/// The number that `s` is read as: an optional plus sign and one or more
/// decimal digits, whose value fits in 64 bits.
pub open spec fn parsed_u64(s: Seq<char>) -> Option<u64> {
    let digits = unsigned_digits(s);
    if digits.len() > 0 && all_digits(digits) && decimal_value(digits) <= u64::MAX {
        Some(decimal_value(digits) as u64)
    } else {
        None
    }
}

/// A string of digits stands for at least as much as each of its prefixes.
pub proof fn lemma_decimal_value_prefix(s: Seq<char>, k: int)
    requires
        all_digits(s),
        0 <= k <= s.len(),
    ensures
        decimal_value(s.take(k)) <= decimal_value(s),
    decreases s.len(),
{
    if k == s.len() {
        assert(s.take(k) =~= s);
    } else {
        let t = s.drop_last();
        assert(t.take(k) =~= s.take(k));
        assert(all_digits(t)) by {
            assert forall|i: int| 0 <= i < t.len() implies is_digit(#[trigger] t[i]) by {
                assert(t[i] == s[i]);
            }
        }
        lemma_decimal_value_prefix(t, k);
    }
}

/// A digit more at the end: ten times the value, plus the digit.
pub proof fn lemma_decimal_value_push(s: Seq<char>, c: char)
    ensures
        decimal_value(s.push(c)) == decimal_value(s) * 10 + digit_of(c),
{
    assert(s.push(c).drop_last() =~= s);
}

/// The value of a decimal digit.
pub(crate) fn digit_value(c: char) -> (d: u64)
    requires
        is_digit(c),
    ensures
        d == digit_of(c),
        d <= 9,
{
    (c as u32 - '0' as u32) as u64
}

/// Whether `c` is a decimal digit.
pub fn is_decimal_digit(c: char) -> (b: bool)
    ensures
        b == is_digit(c),
{
    '0' <= c && c <= '9'
}

/// One digit more at the end of a number, unless the number then no longer
/// fits in 64 bits.
pub(crate) fn push_digit(acc: u64, c: char) -> (r: Option<u64>)
    requires
        is_digit(c),
    ensures
        r == (if acc * 10 + digit_of(c) <= u64::MAX {
            Some((acc * 10 + digit_of(c)) as u64)
        } else {
            None
        }),
{
    let d = digit_value(c);
    if acc > (u64::MAX - d) / 10 {
        None
    } else {
        Some(acc * 10 + d)
    }
}

/// Reads an unsigned decimal number: an optional plus sign and one or more
/// digits. `None` where the string is of another form, or the number does
/// not fit in 64 bits.
pub fn parse_u64(s: &str) -> (r: Option<u64>)
    ensures
        r == parsed_u64(s@),
{
    let n = s.unicode_len();
    if n == 0 {
        return None;
    }
    let start: usize = if s.get_char(0) == '+' {
        1
    } else {
        0
    };
    let ghost digits = unsigned_digits(s@);
    assert(digits =~= s@.subrange(start as int, n as int));
    if start == n {
        return None;
    }
    let mut acc: u64 = 0;
    let mut i: usize = start;
    assert(digits.take(0) =~= Seq::<char>::empty());
    while i < n
        invariant
            start <= i <= n,
            n == s@.len(),
            digits == s@.subrange(start as int, n as int),
            digits == unsigned_digits(s@),
            all_digits(digits.take(i - start)),
            acc == decimal_value(digits.take(i - start)),
        decreases n - i,
    {
        let c = s.get_char(i);
        assert(digits[i - start] == c);
        if !is_decimal_digit(c) {
            return None;
        }
        proof {
            let before = digits.take(i - start);
            let after = digits.take(i - start + 1);
            assert(after =~= before.push(c));
            lemma_decimal_value_push(before, c);
            assert forall|j: int| 0 <= j < after.len() implies is_digit(#[trigger] after[j]) by {
                if j < before.len() {
                    assert(after[j] == before[j]);
                }
            }
            if all_digits(digits) {
                lemma_decimal_value_prefix(digits, i - start + 1);
            }
        }
        match push_digit(acc, c) {
            Some(next) => {
                acc = next;
            },
            None => {
                return None;
            },
        }
        i += 1;
    }
    assert(digits.take(n - start) =~= digits);
    Some(acc)
}

/// The character of a decimal digit.
pub open spec fn digit_char(d: nat) -> char
    recommends
        d <= 9,
{
    if d == 0 {
        '0'
    } else if d == 1 {
        '1'
    } else if d == 2 {
        '2'
    } else if d == 3 {
        '3'
    } else if d == 4 {
        '4'
    } else if d == 5 {
        '5'
    } else if d == 6 {
        '6'
    } else if d == 7 {
        '7'
    } else if d == 8 {
        '8'
    } else {
        '9'
    }
}

/// The decimal digits of a number, without leading zeros.
pub open spec fn decimal_digits(n: nat) -> Seq<char>
    decreases n,
{
    if n < 10 {
        seq![digit_char(n)]
    } else {
        decimal_digits(n / 10).push(digit_char(n % 10))
    }
}

/// The decimal digits of a number are digits, and stand for the number.
pub proof fn lemma_decimal_digits_value(n: nat)
    ensures
        all_digits(decimal_digits(n)),
        decimal_digits(n).len() > 0,
        decimal_value(decimal_digits(n)) == n,
    decreases n,
{
    if n < 10 {
        let s = decimal_digits(n);
        assert(s.drop_last() =~= Seq::<char>::empty());
        assert(decimal_value(s.drop_last()) == 0);
    } else {
        lemma_decimal_digits_value(n / 10);
        let t = decimal_digits(n / 10);
        let c = digit_char(n % 10);
        lemma_decimal_value_push(t, c);
        assert forall|i: int| 0 <= i < t.push(c).len() implies is_digit(#[trigger] t.push(c)[i]) by {
            if i < t.len() {
                assert(t.push(c)[i] == t[i]);
            }
        }
    }
}

/// The text of one decimal digit.
fn digit_str(d: u64) -> (s: &'static str)
    requires
        d <= 9,
    ensures
        s@ == seq![digit_char(d as nat)],
{
    proof {
        reveal_strlit("0");
        reveal_strlit("1");
        reveal_strlit("2");
        reveal_strlit("3");
        reveal_strlit("4");
        reveal_strlit("5");
        reveal_strlit("6");
        reveal_strlit("7");
        reveal_strlit("8");
        reveal_strlit("9");
    }
    let s = if d == 0 {
        "0"
    } else if d == 1 {
        "1"
    } else if d == 2 {
        "2"
    } else if d == 3 {
        "3"
    } else if d == 4 {
        "4"
    } else if d == 5 {
        "5"
    } else if d == 6 {
        "6"
    } else if d == 7 {
        "7"
    } else if d == 8 {
        "8"
    } else {
        "9"
    };
    assert(s@ =~= seq![digit_char(d as nat)]);
    s
}

/// Writes a number in decimal digits.
pub fn u64_to_string(n: u64) -> (s: String)
    ensures
        s@ == decimal_digits(n as nat),
        parsed_u64(s@) == Some(n),
{
    let mut s = String::from_str(digit_str(n % 10));
    let mut rest: u64 = n / 10;
    proof {
        if n >= 10 {
            assert(decimal_digits(n as nat) =~= decimal_digits(rest as nat) + s@);
        }
    }
    while rest > 0
        invariant
            digits_split(n as nat, rest as nat, s@),
        decreases rest,
    {
        let digit = String::from_str(digit_str(rest % 10));
        proof {
            lemma_digits_split_step(n as nat, rest as nat, s@);
        }
        s = digit.concat(s.as_str());
        rest = rest / 10;
    }
    proof {
        lemma_decimal_digits_value(n as nat);
        assert(unsigned_digits(s@) == s@);
    }
    s
}

/// Whether `low` holds the last digits of `n`, and `rest` is what stands
/// before them: the digits of `n` are those of `rest` and then `low`; with
/// nothing left in `rest`, `low` holds all digits of `n`.
spec fn digits_split(n: nat, rest: nat, low: Seq<char>) -> bool {
    &&& low.len() > 0
    &&& low[0] != '+'
    &&& if rest == 0 {
        decimal_digits(n) == low
    } else {
        decimal_digits(n) == decimal_digits(rest) + low
    }
}

/// One digit more moves from `rest` to `low`.
proof fn lemma_digits_split_step(n: nat, rest: nat, low: Seq<char>)
    requires
        rest > 0,
        digits_split(n, rest, low),
    ensures
        digits_split(n, rest / 10, seq![digit_char(rest % 10)] + low),
{
    let d = seq![digit_char(rest % 10)];
    if rest < 10 {
        assert(decimal_digits(rest) == d);
    } else {
        assert(decimal_digits(rest) == decimal_digits(rest / 10).push(digit_char(rest % 10)));
        assert(decimal_digits(rest / 10).push(digit_char(rest % 10)) + low =~= decimal_digits(
            rest / 10,
        ) + (d + low));
    }
}

} // verus!
