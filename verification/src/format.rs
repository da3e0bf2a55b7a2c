//! Decimal text of fixed-point values, and the number of decimals to show
//! them with at a given screen scale.

use vstd::prelude::*;
use vstd::math::abs;
use vstd::string::StringExecFns;
use crate::fixed::UNIT;
use crate::limits::{at_least, at_most};

verus! {

/// Ten to the power of `n`.
pub open spec fn pow10(n: nat) -> nat
    decreases n,
{
    if n == 0 {
        1
    } else {
        10 * pow10((n - 1) as nat)
    }
}

/// How many decimal digits `n` has; zero has none.
pub open spec fn digit_count(n: nat) -> nat
    decreases n,
{
    if n == 0 {
        0
    } else {
        1 + digit_count(n / 10)
    }
}

/// With `decimals` decimals a step of `scale` changes the text: `scale` is
/// at least one unit of the last decimal.
pub open spec fn shows_at(scale: int, decimals: nat) -> bool {
    abs(scale) * pow10(decimals) >= UNIT
}

/// The number of decimals for a scale: the least in one to six at which
/// the scale shows, and six where it shows at none of them. This is the
/// negated decimal logarithm of the scale's magnitude, rounded up to a whole
/// number and held between one and six; a scale of zero gives six.
pub open spec fn precision_model(scale: int) -> nat {
    if shows_at(scale, 1) {
        1
    } else if shows_at(scale, 2) {
        2
    } else if shows_at(scale, 3) {
        3
    } else if shows_at(scale, 4) {
        4
    } else if shows_at(scale, 5) {
        5
    } else {
        6
    }
}

/// The first seven powers of ten.
pub proof fn lemma_pow10_values()
    ensures
        pow10(0) == 1,
        pow10(1) == 10,
        pow10(2) == 100,
        pow10(3) == 1_000,
        pow10(4) == 10_000,
        pow10(5) == 100_000,
        pow10(6) == 1_000_000,
{
    reveal_with_fuel(pow10, 7);
}

/// The precision lies between one and six for every scale, zero included;
/// the scale shows at it unless it shows at no precision up to six; and it
/// shows at no smaller one.
pub proof fn lemma_precision_bounds(scale: int)
    ensures
        1 <= precision_model(scale) <= 6,
        precision_model(scale) < 6 ==> shows_at(scale, precision_model(scale)),
        forall|d: nat| 1 <= d < precision_model(scale) ==> !shows_at(scale, d),
        scale == 0 ==> precision_model(scale) == 6,
        abs(scale) >= UNIT ==> precision_model(scale) == 1,
{
    lemma_pow10_values();
}

/// The magnitude of `x`.
pub fn magnitude_of(x: i64) -> (m: u64)
    ensures
        m == abs(x as int),
{
    if x >= 0 {
        x as u64
    } else {
        (-(x as i128)) as u64
    }
}

/// Counts the decimal digits of `n`.
pub fn count_digits(n: u64) -> (k: usize)
    ensures
        k == digit_count(n as nat),
        k <= 20,
{
    let mut rest: u64 = n;
    let mut k: usize = 0;
    proof {
        lemma_digit_count_bound(n as nat);
    }
    while rest > 0
        invariant
            k + digit_count(rest as nat) == digit_count(n as nat),
            digit_count(n as nat) <= 20,
        decreases rest,
    {
        rest = rest / 10;
        k = k + 1;
    }
    k
}

/// A number below two to the sixty-fourth has at most twenty digits.
proof fn lemma_digit_count_bound(n: nat)
    requires
        n <= u64::MAX,
    ensures
        digit_count(n) <= 20,
{
    reveal_with_fuel(digit_count, 22);
}

/// A number has `k` digits exactly where it lies from ten to the `k - 1`
/// up to, but not including, ten to the `k`.
proof fn lemma_digit_count_range(n: nat, k: nat)
    requires
        k >= 1,
    ensures
        digit_count(n) == k <==> pow10((k - 1) as nat) <= n < pow10(k),
        digit_count(n) >= k <==> pow10((k - 1) as nat) <= n,
    decreases k,
{
    reveal_with_fuel(pow10, 2);
    reveal_with_fuel(digit_count, 2);
    if k > 1 {
        lemma_digit_count_range(n / 10, (k - 1) as nat);
    }
}

/// The number of decimals to show values with where one screen unit spans
/// `scale`: the least between one and six with which a step of `scale`
/// changes the text.
pub fn precision_for(scale: i64) -> (decimals: usize)
    ensures
        decimals == precision_model(scale as int),
        1 <= decimals <= 6,
{
    let digits: usize = count_digits(magnitude_of(scale));
    let wanted: usize = if digits > 7 {
        0
    } else {
        7 - digits
    };
    proof {
        lemma_pow10_values();
        let m = abs(scale as int);
        lemma_digit_count_range(m, 1);
        lemma_digit_count_range(m, 2);
        lemma_digit_count_range(m, 3);
        lemma_digit_count_range(m, 4);
        lemma_digit_count_range(m, 5);
        lemma_digit_count_range(m, 6);
        lemma_digit_count_range(m, 7);
    }
    at_least(at_most(wanted, 6), 1)
}

/// The character of one decimal digit.
pub open spec fn digit_char(d: nat) -> char {
    if d == 0 {
        '0'
    } else if d == 1 {
        '1'
    } else if d == 2 {
        '2'
    } else if d == 3 {
        '3'
    } else if d == 4 {
        '4'
    } else if d == 5 {
        '5'
    } else if d == 6 {
        '6'
    } else if d == 7 {
        '7'
    } else if d == 8 {
        '8'
    } else {
        '9'
    }
}

/// The decimal digits of `n`, without leading zeros; zero is one digit.
pub open spec fn digits_of(n: nat) -> Seq<char>
    decreases n,
{
    if n < 10 {
        seq![digit_char(n)]
    } else {
        digits_of(n / 10).push(digit_char(n % 10))
    }
}

/// The last `width` decimal digits of `n`, with leading zeros.
pub open spec fn padded_digits(n: nat, width: nat) -> Seq<char>
    decreases width,
{
    if width == 0 {
        Seq::empty()
    } else {
        padded_digits(n / 10, (width - 1) as nat).push(digit_char(n % 10))
    }
}

/// `n` divided by `divisor`, rounded to the nearest whole number, and to
/// the even one of two that are equally near.
pub open spec fn rounded_quotient(n: nat, divisor: nat) -> nat {
    let q = n / divisor;
    let r = n % divisor;
    if 2 * r > divisor || (2 * r == divisor && q % 2 == 1) {
        q + 1
    } else {
        q
    }
}

/// `count` zeros.
pub open spec fn zeros(count: nat) -> Seq<char> {
    Seq::new(count, |i: int| '0')
}

/// A fixed-point value as decimal text with `decimals` decimals: a minus
/// sign where the value is negative, the whole part and, where decimals are
/// asked for, a point and the decimals. With fewer than six decimals the
/// value is rounded to the nearest number with that many, and on a tie to
/// the one with an even last digit; decimals beyond the sixth are zeros.
pub open spec fn decimal_text(value: int, decimals: nat) -> Seq<char> {
    let kept = if decimals <= 6 {
        decimals
    } else {
        6
    };
    let shown = rounded_quotient(abs(value), pow10((6 - kept) as nat));
    let sign = if value < 0 {
        seq!['-']
    } else {
        Seq::<char>::empty()
    };
    let whole = digits_of(shown / pow10(kept));
    if decimals == 0 {
        sign + whole
    } else {
        sign + whole + seq!['.'] + padded_digits(shown % pow10(kept), kept) + zeros(
            (decimals - kept) as nat,
        )
    }
}

/// The text of one decimal digit.
fn digit_str(d: u64) -> (s: &'static str)
    requires
        d < 10,
    ensures
        s@ == seq![digit_char(d as nat)],
{
    proof {
        reveal_strlit("0");
        reveal_strlit("1");
        reveal_strlit("2");
        reveal_strlit("3");
        reveal_strlit("4");
        reveal_strlit("5");
        reveal_strlit("6");
        reveal_strlit("7");
        reveal_strlit("8");
        reveal_strlit("9");
    }
    let s = match d {
        0 => "0",
        1 => "1",
        2 => "2",
        3 => "3",
        4 => "4",
        5 => "5",
        6 => "6",
        7 => "7",
        8 => "8",
        _ => "9",
    };
    assert(s@ =~= seq![digit_char(d as nat)]);
    s
}

/// Appends the decimal digits of `n` to `out`.
fn append_digits(n: u64, out: &mut String)
    ensures
        final(out)@ == old(out)@ + digits_of(n as nat),
    decreases n,
{
    if n >= 10 {
        append_digits(n / 10, out);
    }
    out.append(digit_str(n % 10));
    assert(final(out)@ =~= old(out)@ + digits_of(n as nat));
}

/// Appends the last `width` decimal digits of `n` to `out`.
fn append_padded(n: u64, width: usize, out: &mut String)
    ensures
        final(out)@ == old(out)@ + padded_digits(n as nat, width as nat),
    decreases width,
{
    if width > 0 {
        append_padded(n / 10, width - 1, out);
        out.append(digit_str(n % 10));
    }
    assert(final(out)@ =~= old(out)@ + padded_digits(n as nat, width as nat));
}

/// Computes ten to the power of `n`, up to the sixth.
fn power_of_ten(n: usize) -> (p: u64)
    requires
        n <= 6,
    ensures
        p == pow10(n as nat),
        1 <= p <= 1_000_000,
{
    proof {
        lemma_pow10_values();
    }
    match n {
        0 => 1,
        1 => 10,
        2 => 100,
        3 => 1_000,
        4 => 10_000,
        5 => 100_000,
        _ => 1_000_000,
    }
}

/// Computes [`rounded_quotient`].
fn round_quotient(n: u64, divisor: u64) -> (q: u64)
    requires
        0 < divisor <= 1_000_000,
        n <= 0x8000_0000_0000_0000,
    ensures
        q == rounded_quotient(n as nat, divisor as nat),
{
    let q: u64 = n / divisor;
    let r: u64 = n % divisor;
    if 2 * r > divisor || (2 * r == divisor && q % 2 == 1) {
        q + 1
    } else {
        q
    }
}

/// Appends `count` zeros to `out`.
fn append_zeros(count: usize, out: &mut String)
    ensures
        final(out)@ == old(out)@ + zeros(count as nat),
{
    let mut done: usize = 0;
    while done < count
        invariant
            done <= count,
            out@ == old(out)@ + zeros(done as nat),
        decreases count - done,
    {
        proof {
            reveal_strlit("0");
        }
        out.append("0");
        done = done + 1;
        assert(out@ =~= old(out)@ + zeros(done as nat));
    }
}

/// Appends `value` as decimal text with `decimals` decimals to `out`.
pub fn append_decimal(value: i64, decimals: usize, out: &mut String)
    ensures
        final(out)@ == old(out)@ + decimal_text(value as int, decimals as nat),
{
    let kept: usize = at_most(decimals, 6);
    let shown: u64 = round_quotient(magnitude_of(value), power_of_ten(6 - kept));
    let unit: u64 = power_of_ten(kept);
    if value < 0 {
        proof {
            reveal_strlit("-");
        }
        out.append("-");
    }
    append_digits(shown / unit, out);
    if decimals > 0 {
        proof {
            reveal_strlit(".");
        }
        out.append(".");
        append_padded(shown % unit, kept, out);
        append_zeros(decimals - kept, out);
    }
    assert(final(out)@ =~= old(out)@ + decimal_text(value as int, decimals as nat));
}

/// `value` as decimal text with `decimals` decimals.
pub fn format_decimal(value: i64, decimals: usize) -> (text: String)
    ensures
        text@ == decimal_text(value as int, decimals as nat),
{
    let mut text = String::new();
    append_decimal(value, decimals, &mut text);
    text
}

} // verus!
