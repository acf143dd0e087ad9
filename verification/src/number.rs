//! Floating-point numbers as plain values: the bit pattern of an IEEE 754 binary64 or
//! binary32 number, its exact value in a spec, and the comparisons and conversions that
//! the rest of the library decides by. No arithmetic is done on them here.

use vstd::arithmetic::div_mod::{
    lemma_basic_div, lemma_div_by_multiple, lemma_fundamental_div_mod_converse, lemma_div_denominator,
    lemma_div_is_ordered_by_denominator, lemma_div_pos_is_pos,
};
use vstd::arithmetic::power2::{
    lemma2_to64, lemma_pow2_adds, lemma_pow2_pos, lemma_pow2_strictly_increases, lemma_pow2_unfold,
    pow2,
};
use vstd::bits::{lemma_u64_shl_is_mul, lemma_u64_shr_is_div};
use vstd::prelude::*;
use vstd::string::*;

verus! {

/// A binary64 number, by its bit pattern. `==` compares bit patterns, not numbers.
#[derive(Clone, Copy, Debug, PartialEq, Eq, Structural)]
pub struct Double {
    pub bits: u64,
}

/// A binary32 number, by its bit pattern. `==` compares bit patterns, not numbers.
#[derive(Clone, Copy, Debug, PartialEq, Eq, Structural)]
pub struct Single {
    pub bits: u32,
}

/// `message` is the text and, where there is a number, the number after it as `show` writes
/// it.
pub open spec fn shown_message<F>(
    text: Seq<char>,
    number: Option<Double>,
    show: F,
    message: Seq<char>,
) -> bool where F: FnOnce(Double) -> String {
    match number {
        None => message == text,
        Some(number) => exists|written: String| #[trigger]
            call_ensures(show, (number,), written) && message == text + written@,
    }
}

/// The text and, where there is a number, the number after it as `show` writes it.
pub fn message_with<F>(text: &str, number: Option<Double>, show: F) -> (message: String) where
    F: FnOnce(Double) -> String,

    requires
        number matches Some(number) ==> call_requires(show, (number,)),
    ensures
        shown_message(text@, number, show, message@),
{
    let mut message: String = text.to_owned();
    match number {
        None => {},
        Some(number) => {
            let written: String = show(number);
            assert(call_ensures(show, (number,), written));
            message.append(written.as_str());
        },
    }
    message
}

/// The value of a pattern without its sign bit, in units of the format's smallest
/// number; `unit` is two to the power of the fraction's width. The pattern of infinity
/// comes out above every finite one.
pub open spec fn magnitude(pattern: nat, unit: nat) -> nat {
    let exponent = pattern / unit;
    let fraction = pattern % unit;
    if exponent == 0 {
        fraction
    } else {
        (unit + fraction) * pow2((exponent - 1) as nat)
    }
}

/// `x / unit`, rounded to the nearest integer, a tie to the even one.
pub open spec fn round_even(x: nat, unit: nat) -> nat {
    let down = x / unit;
    let rest = x % unit;
    if rest * 2 > unit || (rest * 2 == unit && down % 2 == 1) {
        down + 1
    } else {
        down
    }
}

/// Patterns order as the numbers that they stand for.
pub proof fn lemma_magnitude_increases(a: nat, b: nat, unit: nat)
    requires
        a < b,
        unit > 0,
    ensures
        magnitude(a, unit) < magnitude(b, unit),
{
    let (ea, eb) = (a / unit, b / unit);
    let (fa, fb) = (a % unit, b % unit);
    assert(a == ea * unit + fa && fa < unit && b == eb * unit + fb && fb < unit && ea <= eb)
        by (nonlinear_arith)
        requires
            a < b,
            unit > 0,
            ea == a / unit,
            eb == b / unit,
            fa == a % unit,
            fb == b % unit,
    ;
    if ea == eb {
        if ea > 0 {
            let p = pow2((ea - 1) as nat);
            lemma_pow2_pos((ea - 1) as nat);
            assert((unit + fa) * p < (unit + fb) * p) by (nonlinear_arith)
                requires
                    fa < fb,
                    p > 0,
            ;
        }
    } else {
        let q = pow2((eb - 1) as nat);
        lemma_pow2_pos((eb - 1) as nat);
        assert((unit + fb) * q >= unit * q) by (nonlinear_arith)
            requires
                q > 0,
                fb >= 0,
        ;
        if ea == 0 {
            assert(unit * q >= unit) by (nonlinear_arith)
                requires
                    q > 0,
            ;
        } else {
            let p = pow2((ea - 1) as nat);
            lemma_pow2_pos((ea - 1) as nat);
            lemma_pow2_unfold(ea);
            if ea < eb - 1 {
                lemma_pow2_strictly_increases(ea, (eb - 1) as nat);
            }
            assert((unit + fa) * p < unit * q) by (nonlinear_arith)
                requires
                    fa < unit,
                    q >= 2 * p,
                    p > 0,
            ;
        }
    }
}

impl Double {
    /// The pattern without the sign bit.
    pub open spec fn pattern(self) -> nat {
        (self.bits % 0x8000_0000_0000_0000) as nat
    }

    /// Not a number.
    pub open spec fn is_nan(self) -> bool {
        self.pattern() > 0x7ff0_0000_0000_0000
    }

    /// A number other than the infinities.
    pub open spec fn finite(self) -> bool {
        self.pattern() < 0x7ff0_0000_0000_0000
    }

    /// The exact value, in units of 2^-1074.
    pub open spec fn scaled(self) -> int {
        let m = magnitude(self.pattern(), 0x10_0000_0000_0000) as int;
        if self.bits >= 0x8000_0000_0000_0000 {
            -m
        } else {
            m
        }
    }

    /// `self <= other` as numbers.
    pub open spec fn at_most(self, other: Double) -> bool {
        !self.is_nan() && !other.is_nan() && self.scaled() <= other.scaled()
    }

    /// `low <= self <= high` as numbers.
    pub open spec fn between(self, low: Double, high: Double) -> bool {
        low.at_most(self) && self.at_most(high)
    }

    /// Whether the number is neither infinite nor NaN.
    pub fn is_finite(self) -> (r: bool)
        ensures
            r == self.finite(),
    {
        self.bits % 0x8000_0000_0000_0000 < 0x7ff0_0000_0000_0000
    }

    /// Whether `self <= other` as numbers; false where either is NaN.
    pub fn le(self, other: Double) -> (r: bool)
        ensures
            r == self.at_most(other),
    {
        let a: u64 = self.bits % 0x8000_0000_0000_0000;
        let b: u64 = other.bits % 0x8000_0000_0000_0000;
        if a > 0x7ff0_0000_0000_0000 || b > 0x7ff0_0000_0000_0000 {
            return false;
        }
        proof {
            lemma_order_of_magnitudes(a as nat, b as nat, 0x10_0000_0000_0000);
        }
        let a_negative: bool = self.bits >= 0x8000_0000_0000_0000;
        let b_negative: bool = other.bits >= 0x8000_0000_0000_0000;
        if a_negative {
            if b_negative {
                b <= a
            } else {
                true
            }
        } else if b_negative {
            a == 0 && b == 0
        } else {
            a <= b
        }
    }

    /// Whether `self < other` as numbers; false where either is NaN.
    pub fn lt(self, other: Double) -> (r: bool)
        ensures
            r == (!self.is_nan() && !other.is_nan() && self.scaled() < other.scaled()),
    {
        self.le(other) && !other.le(self)
    }

    /// The larger of two numbers; the other one where one is NaN.
    pub open spec fn larger(self, other: Double) -> Double {
        if self.is_nan() || self.at_most(other) {
            other
        } else {
            self
        }
    }

    /// The larger of two numbers; the other one where one is NaN.
    pub fn max(self, other: Double) -> (r: Double)
        ensures
            r == self.larger(other),
    {
        if self.bits % 0x8000_0000_0000_0000 > 0x7ff0_0000_0000_0000 || self.le(other) {
            other
        } else {
            self
        }
    }

    /// The number brought into a range.
    pub open spec fn clamped(self, low: Double, high: Double) -> Double {
        if !low.at_most(self) {
            low
        } else if !self.at_most(high) {
            high
        } else {
            self
        }
    }

    /// Brings a number into a range.
    pub fn clamp(self, low: Double, high: Double) -> (r: Double)
        ensures
            r == self.clamped(low, high),
    {
        if !low.le(self) {
            low
        } else if !self.le(high) {
            high
        } else {
            self
        }
    }

    /// A positive number whose nearest binary32 number is positive and finite with a
    /// full-width fraction: at least 2^-126 and below 2^127.
    pub open spec fn narrows(self) -> bool {
        0x3810_0000_0000_0000 <= self.bits < 0x47e0_0000_0000_0000
    }

    /// The nearest binary32 number, a tie to the even fraction.
    pub open spec fn narrowed(self) -> Single {
        Single { bits: round_even((self.bits - 0x3800_0000_0000_0000) as nat, 0x2000_0000) as u32 }
    }

    /// Narrows to the nearest binary32 number.
    pub fn narrow(self) -> (r: Single)
        requires
            self.narrows(),
        ensures
            r == self.narrowed(),
    {
        let x: u64 = self.bits - 0x3800_0000_0000_0000;
        let down: u64 = x / 0x2000_0000;
        let rest: u64 = x % 0x2000_0000;
        let up: u64 = if rest > 0x1000_0000 || (rest == 0x1000_0000 && down % 2 == 1) {
            down + 1
        } else {
            down
        };
        Single { bits: up as u32 }
    }
}

/// The larger of two numbers is one of them and no smaller than either; a number is larger
/// than what is none.
pub proof fn the_larger_is_no_smaller(a: Double, b: Double)
    ensures
        a.larger(b) == a || a.larger(b) == b,
        !a.is_nan() && !b.is_nan() ==> a.at_most(a.larger(b)) && b.at_most(a.larger(b)),
        a.is_nan() ==> a.larger(b) == b,
        b.is_nan() && !a.is_nan() ==> a.larger(b) == a,
{
}

/// What is brought into a range is within it, and stays as it is where it was within it;
/// otherwise it becomes the nearer end.
pub proof fn clamping_brings_into_range(x: Double, low: Double, high: Double)
    requires
        low.at_most(high),
    ensures
        x.clamped(low, high).between(low, high),
        x.between(low, high) ==> x.clamped(low, high) == x,
        !x.is_nan() && x.scaled() < low.scaled() ==> x.clamped(low, high) == low,
        !x.is_nan() && x.scaled() > high.scaled() ==> x.clamped(low, high) == high,
        x.is_nan() ==> x.clamped(low, high) == low,
{
}

/// Numbers are ordered: of any two that are numbers one is at most the other, what is none
/// is at most nothing, and a change of sign turns the order round.
pub proof fn numbers_are_ordered(a: Double, b: Double, c: Double)
    ensures
        !a.is_nan() && !b.is_nan() <==> a.at_most(b) || b.at_most(a),
        a.at_most(b) && b.at_most(c) ==> a.at_most(c),
        a.bits < 0x8000_0000_0000_0000 && !a.is_nan() ==> (Double {
            bits: (a.bits + 0x8000_0000_0000_0000) as u64,
        }).scaled() == -a.scaled(),
{
}

impl Single {
    /// The pattern without the sign bit.
    pub open spec fn pattern(self) -> nat {
        (self.bits % 0x8000_0000) as nat
    }

    /// Not a number.
    pub open spec fn is_nan(self) -> bool {
        self.pattern() > 0x7f80_0000
    }

    /// The exact value, in units of 2^-149.
    pub open spec fn scaled(self) -> int {
        let m = magnitude(self.pattern(), 0x80_0000) as int;
        if self.bits >= 0x8000_0000 {
            -m
        } else {
            m
        }
    }

    /// `self <= other` as numbers.
    pub open spec fn at_most(self, other: Single) -> bool {
        !self.is_nan() && !other.is_nan() && self.scaled() <= other.scaled()
    }

    /// `self < other` as numbers.
    pub open spec fn below(self, other: Single) -> bool {
        !self.is_nan() && !other.is_nan() && self.scaled() < other.scaled()
    }

    /// Whether `self <= other` as numbers; false where either is NaN.
    pub fn le(self, other: Single) -> (r: bool)
        ensures
            r == self.at_most(other),
    {
        let a: u32 = self.bits % 0x8000_0000;
        let b: u32 = other.bits % 0x8000_0000;
        if a > 0x7f80_0000 || b > 0x7f80_0000 {
            return false;
        }
        proof {
            lemma_order_of_magnitudes(a as nat, b as nat, 0x80_0000);
        }
        let a_negative: bool = self.bits >= 0x8000_0000;
        let b_negative: bool = other.bits >= 0x8000_0000;
        if a_negative {
            if b_negative {
                b <= a
            } else {
                true
            }
        } else if b_negative {
            a == 0 && b == 0
        } else {
            a <= b
        }
    }

    /// Whether `self < other` as numbers; false where either is NaN.
    pub fn lt(self, other: Single) -> (r: bool)
        ensures
            r == self.below(other),
    {
        self.le(other) && !other.le(self)
    }
}

impl Single {
    /// A positive finite number with a full-width fraction.
    pub open spec fn widens(self) -> bool {
        0x80_0000 <= self.bits < 0x7f80_0000
    }

    /// The same number in binary64.
    pub open spec fn widened(self) -> Double {
        Double { bits: (self.bits * 0x2000_0000 + 0x3800_0000_0000_0000) as u64 }
    }

    /// Widens to the same number in binary64.
    pub fn widen(self) -> (r: Double)
        requires
            self.widens(),
        ensures
            r == self.widened(),
    {
        Double { bits: (self.bits as u64) * 0x2000_0000 + 0x3800_0000_0000_0000 }
    }

    /// The number cut to an integer from zero to the largest `i32`; zero for NaN.
    pub open spec fn floored(self) -> int {
        let whole = self.scaled() / pow2(149) as int;
        if self.is_nan() || self.bits >= 0x8000_0000 {
            0
        } else if whole > i32::MAX {
            i32::MAX as int
        } else {
            whole
        }
    }

    /// What a number is cut to is never negative and fits an `i32`.
    pub proof fn lemma_floored(self)
        ensures
            0 <= self.floored() <= i32::MAX,
    {
        lemma_pow2_pos(149);
        if self.bits < 0x8000_0000 {
            lemma_div_pos_is_pos(self.scaled(), pow2(149) as int);
        }
    }

    /// What a positive number is cut to is the whole part of it: the number is at least
    /// that and less than one more. Beyond the largest `i32` it is that.
    pub proof fn lemma_floored_is_the_whole_part(self)
        ensures
            self.is_nan() || self.bits >= 0x8000_0000 ==> self.floored() == 0,
            !self.is_nan() && self.bits < 0x8000_0000 ==> self.floored() * pow2(149)
                <= self.scaled(),
            !self.is_nan() && self.bits < 0x8000_0000 && self.floored() < i32::MAX
                ==> self.scaled() < (self.floored() + 1) * pow2(149),
    {
        lemma_pow2_pos(149);
        let one = pow2(149) as int;
        let whole = self.scaled() / one;
        let value = self.scaled();
        assert(whole * one <= value < (whole + 1) * one) by (nonlinear_arith)
            requires
                whole == value / one,
                one > 0,
        ;
        if whole > i32::MAX {
            assert(i32::MAX * one <= whole * one) by (nonlinear_arith)
                requires
                    whole > i32::MAX,
                    one > 0,
            ;
        }
    }

    /// Cuts the number to an integer: negative numbers and NaN give zero, numbers beyond
    /// the largest `i32` give that.
    pub fn floor_to_i32(self) -> (r: i32)
        ensures
            r == self.floored(),
    {
        if self.bits >= 0x8000_0000 || self.bits > 0x7f80_0000 {
            return 0;
        }
        let e: u32 = self.bits / 0x80_0000;
        let m: u64 = (0x80_0000 + self.bits % 0x80_0000) as u64;
        proof {
            lemma_pow2_pos(149);
            lemma2_to64();
        }
        let ghost p = pow2((e - 1) as nat);
        let ghost s = self.scaled();
        if e < 127 {
            proof {
                if e > 0 {
                    lemma_pow2_adds(24, (e - 1) as nat);
                    lemma_pow2_pos((e - 1) as nat);
                    if e + 23 < 149 {
                        lemma_pow2_strictly_increases((e + 23) as nat, 149);
                    }
                    assert(m * p < 0x100_0000 * p) by (nonlinear_arith)
                        requires
                            m < 0x100_0000,
                            p > 0,
                    ;
                } else {
                    lemma_pow2_strictly_increases(24, 149);
                }
                assert(0 <= s < pow2(149));
                lemma_basic_div(s, pow2(149) as int);
            }
            0
        } else if e < 150 {
            let k: u64 = (150 - e) as u64;
            proof {
                lemma_pow2_adds((e - 1) as nat, k as nat);
                lemma_pow2_pos((e - 1) as nat);
                lemma_pow2_pos(k as nat);
                lemma_u64_shr_is_div(m, k);
                let q = pow2(k as nat) as int;
                assert(s == m * p);
                lemma_div_denominator(s, p as int, q);
                lemma_div_by_multiple(m as int, p as int);
                assert(s / pow2(149) as int == m as int / q);
                lemma_pow2_strictly_increases(0, k as nat);
                lemma_div_is_ordered_by_denominator(m as int, 1, q);
            }
            (m >> k) as i32
        } else if e < 158 {
            let k: u64 = (e - 150) as u64;
            proof {
                lemma_pow2_adds(k as nat, 149);
                lemma_pow2_pos(k as nat);
                let q = pow2(k as nat) as int;
                if k < 7 {
                    lemma_pow2_strictly_increases(k as nat, 7);
                }
                assert(m * q < 0x8000_0000) by (nonlinear_arith)
                    requires
                        m < 0x100_0000,
                        0 < q <= 128,
                ;
                lemma_u64_shl_is_mul(m, k);
                assert(s == (m * q) * pow2(149)) by (nonlinear_arith)
                    requires
                        s == m * p,
                        p == q * pow2(149),
                ;
                lemma_div_by_multiple(m * q, pow2(149) as int);
            }
            (m << k) as i32
        } else {
            proof {
                lemma_pow2_adds((e - 150) as nat, 149);
                lemma_pow2_pos((e - 150) as nat);
                let q = pow2((e - 150) as nat) as int;
                if e > 158 {
                    lemma_pow2_strictly_increases(8, (e - 150) as nat);
                }
                assert(m * q >= 0x8000_0000) by (nonlinear_arith)
                    requires
                        m >= 0x80_0000,
                        q >= 256,
                ;
                assert(s == (m * q) * pow2(149)) by (nonlinear_arith)
                    requires
                        s == m * p,
                        p == q * pow2(149),
                ;
                lemma_div_by_multiple(m * q, pow2(149) as int);
            }
            i32::MAX
        }
    }
}

/// The distance between neighbouring binary32 numbers at the integer `n`, where that is
/// one or more.
pub open spec fn integer_gap(n: nat) -> nat
    decreases n,
{
    if n < 0x100_0000 {
        1
    } else {
        2 * integer_gap(n / 2)
    }
}

/// The integer that the binary32 number nearest to `n` holds, a tie to the even fraction.
pub open spec fn nearest_integer(n: nat) -> nat {
    round_even(n, integer_gap(n)) * integer_gap(n)
}

proof fn lemma_integer_gap(n: nat)
    ensures
        1 <= integer_gap(n) <= n + 1,
        n >= 1 ==> integer_gap(n) <= n,
    decreases n,
{
    if n >= 0x100_0000 {
        lemma_integer_gap(n / 2);
    }
}

/// Integers up to 2^24 are held exactly.
pub proof fn small_integers_are_exact(n: nat)
    requires
        n <= 0x100_0000,
    ensures
        nearest_integer(n) == n,
{
    reveal_with_fuel(integer_gap, 2);
    if n < 0x100_0000 {
        assert(n / 1nat == n && n % 1nat == 0);
        assert(n * 1nat == n);
    } else {
        assert(integer_gap(n) == 2);
        assert(round_even(n, 2) == 0x80_0000);
    }
}

/// The integer that the nearest binary32 number holds.
pub fn nearest_single_integer(n: u64) -> (r: u128)
    ensures
        r == nearest_integer(n as nat),
        r <= 0x2_0000_0000_0000_0000,
{
    let mut gap: u128 = 1;
    let mut m: u64 = n;
    while m >= 0x100_0000
        invariant
            gap >= 1,
            gap * m <= n,
            gap * integer_gap(m as nat) == integer_gap(n as nat),
        decreases m,
    {
        proof {
            assert((gap * 2) * (m as nat / 2) <= gap * m && gap <= gap * m) by (nonlinear_arith)
                requires
                    gap >= 1,
                    m >= 1,
            ;
            let g = integer_gap(m as nat / 2);
            assert((gap * 2) * g == gap * (2 * g)) by (nonlinear_arith);
        }
        gap = gap * 2;
        m = m / 2;
    }
    assert(integer_gap(m as nat) == 1);
    assert(gap * 1 == gap);
    assert(gap == integer_gap(n as nat));
    proof {
        lemma_integer_gap(n as nat);
    }
    let wide: u128 = n as u128;
    let down: u128 = wide / gap;
    let rest: u128 = wide % gap;
    assert(down * gap <= wide && down <= wide && rest < gap) by (nonlinear_arith)
        requires
            gap >= 1,
            down == wide / gap,
            rest == wide % gap,
    ;
    let up: u128 = if rest * 2 > gap || (rest * 2 == gap && down % 2 == 1) {
        down + 1
    } else {
        down
    };
    assert(up * gap <= wide + gap) by (nonlinear_arith)
        requires
            up <= down + 1,
            down * gap <= wide,
            gap >= 1,
    ;
    up * gap
}

proof fn lemma_order_of_magnitudes(a: nat, b: nat, unit: nat)
    requires
        unit > 1,
    ensures
        a <= b <==> magnitude(a, unit) <= magnitude(b, unit),
        b <= a <==> magnitude(b, unit) <= magnitude(a, unit),
        a == 0 <==> magnitude(a, unit) == 0,
        b == 0 <==> magnitude(b, unit) == 0,
{
    if a < b {
        lemma_magnitude_increases(a, b, unit);
    }
    if b < a {
        lemma_magnitude_increases(b, a, unit);
    }
    assert(magnitude(0, unit) == 0) by {
        assert(0nat / unit == 0 && 0nat % unit == 0) by (nonlinear_arith)
            requires
                unit > 1,
        ;
    }
    if a > 0 {
        lemma_magnitude_increases(0, a, unit);
    }
    if b > 0 {
        lemma_magnitude_increases(0, b, unit);
    }
}

/// A number in the given range of patterns lies between the numbers at its ends: for
/// numbers without a sign, comparing patterns is comparing numbers.
pub proof fn patterns_order_numbers(low: Double, x: Double, high: Double)
    requires
        low.bits <= high.bits < 0x7ff0_0000_0000_0000,
    ensures
        x.between(low, high) <==> low.bits <= x.bits <= high.bits || (low.bits == 0 && x.bits
            == 0x8000_0000_0000_0000),
{
    lemma_order_of_magnitudes(low.pattern(), x.pattern(), 0x10_0000_0000_0000);
    lemma_order_of_magnitudes(x.pattern(), high.pattern(), 0x10_0000_0000_0000);
}

/// Narrowing gives a nearest binary32 number: it is off by no more than half the distance
/// between binary32 numbers there, and by exactly half only if its fraction is even.
pub proof fn narrowing_is_nearest(x: Double)
    requires
        x.narrows(),
    ensures
        !x.narrowed().is_nan(),
        ({
            let off = x.narrowed().scaled() * pow2(925) - x.scaled();
            let gap = pow2(29) * pow2((x.pattern() / 0x10_0000_0000_0000 - 1) as nat);
            &&& -gap <= 2 * off <= gap
            &&& 2 * off == gap || 2 * off == -gap ==> x.narrowed().bits % 2 == 0
        }),
{
    let unit: nat = 0x10_0000_0000_0000;
    let e = x.pattern() / unit;
    let m = x.pattern() % unit;
    let y = x.narrowed();
    let down = (x.bits - 0x3800_0000_0000_0000) as nat / 0x2000_0000;
    let n = (y.bits - (e - 896) * 0x80_0000) as nat;
    assert(m / 0x2000_0000 + (e - 896) * 0x80_0000 == down);
    assert(n <= 0x80_0000);
    let f = y.pattern() / 0x80_0000;
    let g = y.pattern() % 0x80_0000;
    let p = pow2((e - 1) as nat);
    lemma2_to64();
    let s = y.scaled();
    assert(s * pow2(925) == (0x80_0000 + n) * 0x2000_0000 * p) by {
        lemma_pow2_adds((e - 897) as nat, 925);
        lemma_pow2_adds(29, (e - 1) as nat);
        let h = pow2((e - 897) as nat);
        assert(h * pow2(925) == 0x2000_0000 * p);
        if n == 0x80_0000 {
            assert(f == e - 895 && g == 0);
            lemma_pow2_unfold((e - 896) as nat);
            assert(s == 0x80_0000 * pow2((e - 896) as nat));
            assert(s == (0x80_0000 + n) * h) by (nonlinear_arith)
                requires
                    s == 0x80_0000 * (2 * h),
                    n == 0x80_0000,
            ;
        } else {
            assert(f == e - 896 && g == n);
            assert(s == (0x80_0000 + n) * h);
        }
        assert(s * pow2(925) == (0x80_0000 + n) * 0x2000_0000 * p) by (nonlinear_arith)
            requires
                s == (0x80_0000 + n) * h,
                h * pow2(925) == 0x2000_0000 * p,
        ;
    }
    assert(x.scaled() == (unit + m) * p);
    let d = n * 0x2000_0000 - m;
    assert((0x80_0000 + n) * 0x2000_0000 * p - (unit + m) * p == d * p) by (nonlinear_arith)
        requires
            d == n * 0x2000_0000 - m,
            unit == 0x10_0000_0000_0000,
    ;
    lemma_pow2_pos((e - 1) as nat);
    assert(-0x1000_0000 <= d <= 0x1000_0000);
    assert(d == 0x1000_0000 || d == -0x1000_0000 ==> y.bits % 2 == 0);
    assert(-(0x2000_0000 * p) <= 2 * (d * p) <= 0x2000_0000 * p) by (nonlinear_arith)
        requires
            -0x1000_0000 <= d <= 0x1000_0000,
            p > 0,
    ;
    assert(2 * (d * p) == 0x2000_0000 * p ==> d == 0x1000_0000) by (nonlinear_arith)
        requires
            p > 0,
    ;
    assert(2 * (d * p) == -(0x2000_0000 * p) ==> d == -0x1000_0000) by (nonlinear_arith)
        requires
            p > 0,
    ;
}

/// Widening is exact, and narrowing undoes it.
pub proof fn widening_is_exact(x: Single)
    requires
        x.widens(),
    ensures
        x.widened().scaled() == x.scaled() * pow2(925),
        x.widened().narrows() ==> x.widened().narrowed() == x,
{
    let wide = x.widened();
    let e = x.pattern() / 0x80_0000;
    let f = x.pattern() % 0x80_0000;
    assert(wide.pattern() / 0x10_0000_0000_0000 == e + 896);
    assert(wide.pattern() % 0x10_0000_0000_0000 == f * 0x2000_0000);
    let p = pow2((e - 1) as nat);
    lemma2_to64();
    lemma_pow2_adds((e - 1) as nat, 925);
    lemma_pow2_adds(29, (e + 895) as nat);
    let q = pow2((e + 895) as nat);
    assert(p * pow2(925) == 0x2000_0000 * q);
    assert(x.scaled() * pow2(925) == (0x80_0000 + f) * (0x2000_0000 * q)) by (nonlinear_arith)
        requires
            x.scaled() == (0x80_0000 + f) * p,
            p * pow2(925) == 0x2000_0000 * q,
    ;
    assert((0x80_0000 + f) * (0x2000_0000 * q) == (0x10_0000_0000_0000 + f * 0x2000_0000) * q)
        by (nonlinear_arith);
}

/// What a pattern narrows to, given the part of it that is kept and the part that is
/// rounded away.
pub proof fn narrowed_by_parts(x: Double, kept: int, rest: int)
    requires
        x.bits == 0x3800_0000_0000_0000 + kept * 0x2000_0000 + rest,
        0 <= rest < 0x2000_0000,
        0 <= kept < 0x1_0000_0000,
    ensures
        x.narrowed().bits == (if rest > 0x1000_0000 || (rest == 0x1000_0000 && kept % 2 == 1) {
            kept + 1
        } else {
            kept
        }) as u32,
{
    lemma_fundamental_div_mod_converse(
        x.bits - 0x3800_0000_0000_0000,
        0x2000_0000,
        kept,
        rest,
    );
}

/// Narrowing keeps order.
pub proof fn narrowing_is_monotone(a: Double, b: Double)
    requires
        a.narrows(),
        b.narrows(),
        a.bits <= b.bits,
    ensures
        a.narrowed().bits <= b.narrowed().bits,
{
}

} // verus!
