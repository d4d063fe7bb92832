//! Measured values, held by their IEEE 754 encoding.
//!
//! A reading of the device is a binary floating-point number. What the
//! dashboard decides about readings is a matter of order alone: a reading is
//! compared with another, raised to a floor, clamped, or rounded to a whole
//! number. All of that can be read off the encoding, which is what these types
//! hold. Sums, quotients and decimal numerals of readings are made outside and
//! come in as encodings or as texts.
//!
//! The encodings of the non-negative numbers are ordered as the numbers are;
//! `size_is_monotone` is that fact, and what the comparisons rest on.

use vstd::arithmetic::div_mod::*;
use vstd::arithmetic::power2::*;
use vstd::prelude::*;

verus! {

/// The number of fractions under one exponent of a 32-bit encoding.
pub const UNIT: u32 = 0x80_0000;

/// The sign bit of a 32-bit encoding.
pub const SIGN: u32 = 0x8000_0000;

/// The encoding of infinity in 32 bits; those above it are not numbers.
pub const INFINITE: u32 = 0x7f80_0000;

/// The number of fractions under one exponent of a 64-bit encoding.
pub const WIDE_UNIT: u64 = 0x10_0000_0000_0000;

/// The sign bit of a 64-bit encoding.
pub const WIDE_SIGN: u64 = 0x8000_0000_0000_0000;

/// The encoding of infinity in 64 bits; those above it are not numbers.
pub const WIDE_INFINITE: u64 = 0x7ff0_0000_0000_0000;

/// The number that an encoding without its sign denotes, counted in the
/// smallest number of the format. `unit` is the number of fractions under one
/// exponent.
pub open spec fn size(magnitude: nat, unit: nat) -> nat {
    let exponent = magnitude / unit;
    let fraction = magnitude % unit;
    if exponent == 0 {
        fraction
    } else {
        (unit + fraction) * pow2((exponent - 1) as nat)
    }
}

proof fn size_grows(m: nat, unit: nat)
    requires
        unit > 0,
    ensures
        size(m, unit) < size(m + 1, unit),
{
    let e = m / unit;
    let f = m % unit;
    lemma_fundamental_div_mod(m as int, unit as int);
    if f + 1 < unit {
        lemma_fundamental_div_mod_converse((m + 1) as int, unit as int, e as int, (f + 1) as int);
        if e > 0 {
            lemma_pow2_pos((e - 1) as nat);
            assert((unit + f) * pow2((e - 1) as nat) < (unit + f + 1) * pow2((e - 1) as nat))
                by (nonlinear_arith)
                requires
                    pow2((e - 1) as nat) > 0,
            ;
        }
    } else {
        assert(m + 1 == unit * (e + 1)) by (nonlinear_arith)
            requires
                m == unit * e + f,
                f + 1 == unit,
        ;
        lemma_fundamental_div_mod_converse((m + 1) as int, unit as int, (e + 1) as int, 0);
        assert(size(m + 1, unit) == (unit + 0) * pow2(e));
        if e > 0 {
            lemma_pow2_unfold(e);
            lemma_pow2_pos((e - 1) as nat);
            assert((unit + f) * pow2((e - 1) as nat) < unit * (2 * pow2((e - 1) as nat)))
                by (nonlinear_arith)
                requires
                    f + 1 == unit,
                    pow2((e - 1) as nat) > 0,
            ;
        } else {
            lemma2_to64();
        }
    }
}

/// A larger encoding denotes a larger number.
pub proof fn size_is_monotone(a: nat, b: nat, unit: nat)
    requires
        unit > 0,
    ensures
        a < b ==> size(a, unit) < size(b, unit),
    decreases b,
{
    if a < b {
        size_grows((b - 1) as nat, unit);
        size_is_monotone(a, (b - 1) as nat, unit);
    }
}

// ---------------------------------------------------------------------------
// 32-bit readings
// ---------------------------------------------------------------------------

/// A number in the 32-bit binary format.
#[derive(Clone, Copy, Debug, PartialEq, Eq, Structural)]
pub struct Reading {
    /// The encoding.
    pub bits: u32,
}

/// The number one, counted in the smallest number of the 32-bit format.
pub open spec fn one() -> nat {
    pow2(149)
}

/// The reading `n / 2`.
pub open spec fn half_number(n: int) -> Reading {
    choose|r: Reading| r.is_halves(n)
}

/// The reading `n`.
pub open spec fn number(n: int) -> Reading {
    half_number(2 * n)
}

/// No two readings without a sign have the same value.
proof fn value_is_encoded_once(a: Reading, b: Reading, n: int)
    requires
        a.is_halves(n),
        b.is_halves(n),
    ensures
        a == b,
{
    size_is_monotone(a.magnitude(), b.magnitude(), UNIT as nat);
    size_is_monotone(b.magnitude(), a.magnitude(), UNIT as nat);
}

/// A number of at most 24 binary digits, halved, has an encoding.
pub proof fn half_number_is_encoded(n: nat)
    requires
        n < 2 * UNIT,
    ensures
        half_number(n as int).is_halves(n as int),
{
    if n == 0 {
        assert((Reading { bits: 0 }).is_halves(0));
    } else {
        lemma2_to64();
        encoding_exists(n, 149, n);
    }
}

/// The number `m * 2^(e - 150)`, which is `n / 2`, has an encoding.
proof fn encoding_exists(m: nat, e: nat, n: nat)
    requires
        0 < m < 2 * UNIT,
        100 <= e <= 149,
        m * pow2((e - 1) as nat) == n * pow2(148),
        m >= pow2((149 - e) as nat),
    ensures
        half_number(n as int).is_halves(n as int),
    decreases e,
{
    if m < UNIT {
        let p = pow2((e - 2) as nat);
        lemma_pow2_unfold((e - 1) as nat);
        assert((2 * m) * p == m * (2 * p)) by (nonlinear_arith);
        lemma_pow2_unfold((150 - e) as nat);
        lemma2_to64();
        if e < 125 {
            lemma_pow2_strictly_increases(24, (149 - e) as nat);
        }
        encoding_exists(2 * m, (e - 1) as nat, n);
    } else {
        encoding_is_halves(m, e, n);
        assert((Reading { bits: (e * UNIT + (m - UNIT)) as u32 }).is_halves(n as int));
    }
}

/// The encoding with exponent `e` and digits `m` is that of `m * 2^(e - 150)`.
proof fn encoding_is_halves(m: nat, e: nat, n: nat)
    requires
        UNIT <= m < 2 * UNIT,
        100 <= e <= 149,
        m * pow2((e - 1) as nat) == n * pow2(148),
    ensures
        (Reading { bits: (e * UNIT + (m - UNIT)) as u32 }).is_halves(n as int),
{
    let r = Reading { bits: (e * UNIT + (m - UNIT)) as u32 };
    lemma_fundamental_div_mod_converse(r.bits as int, UNIT as int, e as int, m - UNIT);
    assert(size(r.magnitude(), UNIT as nat) == m * pow2((e - 1) as nat));
    lemma_pow2_unfold(149);
    assert(2 * (n * pow2(148)) == n * (2 * pow2(148))) by (nonlinear_arith);
}

impl Reading {
    /// Whether the sign bit is set.
    pub open spec fn negative(self) -> bool {
        self.bits >= SIGN
    }

    /// The encoding without its sign.
    pub open spec fn magnitude(self) -> nat {
        if self.negative() {
            (self.bits - SIGN) as nat
        } else {
            self.bits as nat
        }
    }

    /// Whether this is not a number.
    pub open spec fn is_nan(self) -> bool {
        self.magnitude() > INFINITE
    }

    /// The number itself, counted in the smallest number of the format: its
    /// value is `scaled / one`. Infinity counts as larger than every finite
    /// number, and what is no number counts as nothing sensible.
    pub open spec fn scaled(self) -> int {
        if self.negative() {
            -(size(self.magnitude(), UNIT as nat) as int)
        } else {
            size(self.magnitude(), UNIT as nat) as int
        }
    }

    /// The value is `n / 2`, with a clear sign bit.
    pub open spec fn is_halves(self, n: int) -> bool {
        !self.is_nan() && !self.negative() && 2 * self.scaled() == n * one()
    }

    /// The numeric order. What is no number is below nothing and above nothing.
    pub open spec fn less(self, other: Self) -> bool {
        !self.is_nan() && !other.is_nan() && self.scaled() < other.scaled()
    }

    /// The place of an encoding in the total order, in which the negative
    /// encodings come first, with the larger magnitudes in front.
    pub open spec fn place(self) -> int {
        if self.negative() {
            -1 - self.magnitude()
        } else {
            self.magnitude() as int
        }
    }

    /// The larger of `self` and `floor`, or `floor` where `self` is no number.
    pub open spec fn raised_to(self, floor: Self) -> Self {
        if self.is_nan() || self.less(floor) {
            floor
        } else {
            self
        }
    }

    /// `self` confined to the range from `low` to `high`; what is no number is
    /// kept.
    pub open spec fn confined(self, low: Self, high: Self) -> Self {
        if self.less(low) {
            low
        } else if high.less(self) {
            high
        } else {
            self
        }
    }

    /// The nearest whole number, the larger one where two are equally near, up
    /// to the largest of 64 bits. Negative numbers, and what is no number, give
    /// zero.
    pub open spec fn rounded(self) -> int {
        if self.is_nan() || self.negative() {
            0
        } else {
            let nearest = (2 * self.scaled() + one()) / (2 * one() as int);
            if nearest > u64::MAX {
                u64::MAX as int
            } else {
                nearest
            }
        }
    }

    /// The signed magnitude, which orders the numbers.
    fn rank(self) -> (r: i64)
        ensures
            r == if self.negative() { -(self.magnitude() as int) } else { self.magnitude() as int },
    {
        if self.bits >= SIGN {
            -((self.bits - SIGN) as i64)
        } else {
            self.bits as i64
        }
    }

    /// Whether this is not a number.
    pub fn nan(self) -> (r: bool)
        ensures
            r == self.is_nan(),
    {
        let magnitude: u32 = if self.bits >= SIGN { self.bits - SIGN } else { self.bits };
        magnitude > INFINITE
    }

    /// Whether `self < other`.
    pub fn is_less(self, other: Self) -> (r: bool)
        ensures
            r == self.less(other),
    {
        proof {
            let a = self.magnitude();
            let b = other.magnitude();
            size_is_monotone(a, b, UNIT as nat);
            size_is_monotone(b, a, UNIT as nat);
            size_is_monotone(0, a, UNIT as nat);
            size_is_monotone(0, b, UNIT as nat);
        }
        !self.nan() && !other.nan() && self.rank() < other.rank()
    }

    /// The larger of `self` and `floor`.
    pub fn at_least(self, floor: Self) -> (r: Self)
        ensures
            r == self.raised_to(floor),
    {
        if self.nan() || self.is_less(floor) {
            floor
        } else {
            self
        }
    }

    /// `self` confined to the range from `low` to `high`.
    pub fn clamp_to(self, low: Self, high: Self) -> (r: Self)
        ensures
            r == self.confined(low, high),
    {
        if self.is_less(low) {
            low
        } else if high.is_less(self) {
            high
        } else {
            self
        }
    }

    /// The reading `n / 2`.
    pub fn halves(n: u16) -> (r: Self)
        ensures
            r == half_number(n as int),
            r.is_halves(n as int),
    {
        Self::half_units(n as u32)
    }

    /// The reading `n / 2`.
    fn half_units(n: u32) -> (r: Self)
        requires
            n < 2 * UNIT,
        ensures
            r == half_number(n as int),
            r.is_halves(n as int),
    {
        if n == 0 {
            let r = Reading { bits: 0 };
            assert(r.is_halves(0));
            proof {
                value_is_encoded_once(r, half_number(0), 0);
            }
            return r;
        }
        let mut m: u32 = n;
        let mut e: u32 = 149;
        while m < UNIT
            invariant
                0 < m < 2 * UNIT,
                100 <= e <= 149,
                m * pow2((e - 1) as nat) == n * pow2(148),
                e < 149 ==> m >= pow2((149 - e) as nat),
            decreases e,
        {
            proof {
                let p = pow2((e - 2) as nat);
                lemma_pow2_unfold((e - 1) as nat);
                assert((2 * m) * p == m * (2 * p)) by (nonlinear_arith);
                lemma_pow2_unfold((150 - e) as nat);
                lemma2_to64();
                if e < 125 {
                    lemma_pow2_strictly_increases(24, (149 - e) as nat);
                }
            }
            m = m * 2;
            e = e - 1;
        }
        let r = Reading { bits: e * UNIT + (m - UNIT) };
        proof {
            encoding_is_halves(m as nat, e as nat, n as nat);
            value_is_encoded_once(r, half_number(n as int), n as int);
        }
        r
    }

    /// The reading `n`.
    pub fn whole(n: u16) -> (r: Self)
        ensures
            r == number(n as int),
            r.is_halves(2 * n),
    {
        Self::half_units(2 * (n as u32))
    }

    /// The nearest whole number.
    pub fn round(self) -> (r: u64)
        ensures
            r == self.rounded(),
    {
        if self.bits >= SIGN || self.nan() {
            return 0;
        }
        let exponent: u32 = self.bits / UNIT;
        let fraction: u32 = self.bits % UNIT;
        let m: u64 = if exponent == 0 { fraction as u64 } else { (UNIT + fraction) as u64 };
        let k: u32 = if exponent == 0 { 0 } else { exponent - 1 };
        proof {
            lemma2_to64();
            lemma2_to64_rest();
            assert(self.scaled() == m * pow2(k as nat));
            assert(one() > 0) by {
                lemma_pow2_pos(149);
            }
        }
        if k >= 149 {
            let up: u32 = k - 149;
            let ghost v: int = m * pow2(up as nat);
            proof {
                lemma_pow2_adds(up as nat, 149);
                assert(m * (pow2(up as nat) * one()) == (m * pow2(up as nat)) * one())
                    by (nonlinear_arith);
                assert(2 * (v * one()) == v * (2 * one())) by (nonlinear_arith);
                lemma_fundamental_div_mod_converse(
                    2 * self.scaled() + one(),
                    2 * one() as int,
                    v,
                    one() as int,
                );
            }
            if up >= 41 {
                proof {
                    if up > 41 {
                        lemma_pow2_strictly_increases(41, up as nat);
                    }
                    assert(m * pow2(up as nat) >= 0x80_0000 * 0x200_0000_0000) by (nonlinear_arith)
                        requires
                            m >= 0x80_0000,
                            pow2(up as nat) >= 0x200_0000_0000,
                    ;
                }
                u64::MAX
            } else {
                let p = power_of_two(up);
                proof {
                    if up < 40 {
                        lemma_pow2_strictly_increases(up as nat, 40);
                    }
                    assert(m * p <= 0xff_ffff * 0x100_0000_0000) by (nonlinear_arith)
                        requires
                            m <= 0xff_ffff,
                            p <= 0x100_0000_0000,
                    ;
                    assert(m * p >= 0) by (nonlinear_arith);
                }
                m * p
            }
        } else {
            let down: u32 = 149 - k;
            let ghost p = pow2(down as nat) as int;
            let ghost q = pow2(k as nat) as int;
            proof {
                lemma_pow2_pos(down as nat);
                lemma_pow2_pos(k as nat);
                lemma_pow2_adds(k as nat, down as nat);
                assert(q * (2 * m + p) == 2 * (m * q) + q * p) by (nonlinear_arith);
                assert(q * (2 * p) == 2 * (q * p)) by (nonlinear_arith);
                lemma_div_multiples_vanish_quotient(q, 2 * m + p, 2 * p);
                assert((2 * self.scaled() + one()) / (2 * one() as int) == (2 * m + p) / (2 * p));
            }
            if down >= 25 {
                proof {
                    if down > 25 {
                        lemma_pow2_strictly_increases(25, down as nat);
                    }
                    lemma_basic_div(2 * m + p, 2 * p);
                }
                0
            } else {
                let d = power_of_two(down);
                proof {
                    lemma_pow2_strictly_increases(down as nat, 25);
                    lemma_div_pos_is_pos(2 * m + p, 2 * p);
                    lemma_div_nonincreasing(2 * m + p, 2 * p);
                }
                (2 * m + d) / (2 * d)
            }
        }
    }
}

/// A rounded reading is a number of 64 bits.
pub proof fn rounded_reading_fits(r: Reading)
    ensures
        0 <= r.rounded() <= u64::MAX,
{
    if !r.is_nan() && !r.negative() {
        lemma_pow2_pos(149);
        lemma_div_pos_is_pos(2 * r.scaled() + one(), 2 * one() as int);
    }
}

/// Rounding the reading of a whole number gives the number back.
pub proof fn whole_number_is_its_own_rounding(n: u16)
    ensures
        number(n as int).rounded() == n,
{
    let r = number(n as int);
    half_number_is_encoded((2 * n) as nat);
    lemma_pow2_pos(149);
    assert(2 * n * one() == n * (2 * one())) by (nonlinear_arith);
    lemma_fundamental_div_mod_converse(
        2 * r.scaled() + one(),
        2 * one() as int,
        n as int,
        one() as int,
    );
}

/// The power `2^k`.
fn power_of_two(k: u32) -> (r: u64)
    requires
        k < 64,
    ensures
        r == pow2(k as nat),
{
    let mut r: u64 = 1;
    let mut i: u32 = 0;
    proof {
        lemma2_to64();
    }
    while i < k
        invariant
            i <= k < 64,
            r == pow2(i as nat),
        decreases k - i,
    {
        proof {
            lemma_pow2_unfold((i + 1) as nat);
            lemma2_to64();
            lemma2_to64_rest();
            if i + 1 < 63 {
                lemma_pow2_strictly_increases((i + 1) as nat, 63);
            }
        }
        r = r * 2;
        i += 1;
    }
    r
}

/// The reading in `list` whose place in the total order is highest.
pub open spec fn highest_of(list: Seq<Reading>) -> Option<Reading>
    decreases list.len(),
{
    if list.len() == 0 {
        None
    } else {
        match highest_of(list.drop_last()) {
            Some(top) if list.last().place() < top.place() => Some(top),
            _ => Some(list.last()),
        }
    }
}

/// The highest of the readings in a list is one of them, and none of them stands
/// behind it in the total order.
pub proof fn highest_is_an_upper_bound(list: Seq<Reading>)
    ensures
        highest_of(list) is None <==> list.len() == 0,
        highest_of(list) matches Some(top) ==> list.contains(top) && forall|i: int|
            0 <= i < list.len() ==> (#[trigger] list[i]).place() <= top.place(),
    decreases list.len(),
{
    if list.len() > 0 {
        let front = list.drop_last();
        highest_is_an_upper_bound(front);
        assert(list.contains(list.last()));
        if let Some(top) = highest_of(front) {
            let i = choose|i: int| 0 <= i < front.len() && front[i] == top;
            assert(list[i] == top);
        }
        assert forall|i: int| 0 <= i < list.len() implies (#[trigger] list[i]).place()
            <= highest_of(list)->0.place() by {
            if i < front.len() {
                assert(front[i] == list[i]);
            }
        }
    }
}

/// The reading in `list` whose place in the total order is highest; none where
/// the list is empty.
pub fn highest(list: &Vec<Reading>) -> (r: Option<Reading>)
    ensures
        r == highest_of(list@),
{
    let mut top: Option<Reading> = None;
    let mut i: usize = 0;
    while i < list.len()
        invariant
            i <= list@.len(),
            top == highest_of(list@.take(i as int)),
        decreases list.len() - i,
    {
        let next = list[i];
        assert(list@.take(i + 1).drop_last() =~= list@.take(i as int));
        top =
        match top {
            Some(best) => if next.precedes(best) {
                Some(best)
            } else {
                Some(next)
            },
            None => Some(next),
        };
        i += 1;
    }
    assert(list@.take(i as int) =~= list@);
    top
}

impl Reading {
    /// Whether `self` stands before `other` in the total order.
    pub fn precedes(self, other: Self) -> (r: bool)
        ensures
            r == (self.place() < other.place()),
    {
        if self.bits >= SIGN {
            other.bits < SIGN || other.bits < self.bits
        } else {
            other.bits < SIGN && self.bits < other.bits
        }
    }
}

// ---------------------------------------------------------------------------
// 64-bit numbers
// ---------------------------------------------------------------------------

/// A number in the 64-bit binary format.
#[derive(Clone, Copy, Debug, PartialEq, Eq, Structural)]
pub struct WideReading {
    /// The encoding.
    pub bits: u64,
}

/// The number one, counted in the smallest number of the 64-bit format.
pub open spec fn wide_one() -> nat {
    pow2(1074)
}

impl WideReading {
    /// Whether the value is a number, and at least `n`.
    pub open spec fn at_least(self, n: nat) -> bool {
        self.bits <= WIDE_INFINITE && size(self.bits as nat, WIDE_UNIT as nat) >= n * wide_one()
    }

    /// Whether the value is a number, and at least `odd * 2^shift`.
    pub(crate) fn reaches(self, odd: u64, shift: u32) -> (r: bool)
        requires
            0 < odd < 2 * WIDE_UNIT,
            shift < 64,
        ensures
            r == self.at_least(odd as nat * pow2(shift as nat)),
    {
        let mut m: u64 = odd;
        let mut e: u64 = 1075 + shift as u64;
        proof {
            lemma2_to64();
        }
        while m < WIDE_UNIT
            invariant
                0 < m < 2 * WIDE_UNIT,
                1000 <= e <= 1075 + shift,
                shift < 64,
                m * pow2((e - 1) as nat) == odd * pow2((1074 + shift) as nat),
                m >= pow2((1075 + shift - e) as nat),
            decreases e,
        {
            proof {
                let p = pow2((e - 2) as nat);
                lemma_pow2_unfold((e - 1) as nat);
                assert((2 * m) * p == m * (2 * p)) by (nonlinear_arith);
                lemma_pow2_unfold((1076 + shift - e) as nat);
                lemma2_to64();
                lemma2_to64_rest();
                if 1075 + shift - e > 53 {
                    lemma_pow2_strictly_increases(53, (1075 + shift - e) as nat);
                }
            }
            m = m * 2;
            e = e - 1;
        }
        assert(e * WIDE_UNIT <= 1139 * WIDE_UNIT) by (nonlinear_arith)
            requires
                e <= 1139,
        ;
        let bits: u64 = e * WIDE_UNIT + (m - WIDE_UNIT);
        proof {
            let f = (m - WIDE_UNIT) as nat;
            lemma_fundamental_div_mod_converse(bits as int, WIDE_UNIT as int, e as int, f as int);
            assert(size(bits as nat, WIDE_UNIT as nat) == m * pow2((e - 1) as nat));
            lemma_pow2_adds(shift as nat, 1074);
            assert(odd * (pow2(shift as nat) * wide_one()) == (odd * pow2(shift as nat))
                * wide_one()) by (nonlinear_arith);
            size_is_monotone(bits as nat, self.bits as nat, WIDE_UNIT as nat);
            size_is_monotone(self.bits as nat, bits as nat, WIDE_UNIT as nat);
        }
        self.bits <= WIDE_INFINITE && self.bits >= bits
    }
}


// ---------------------------------------------------------------------------
// Laws
// ---------------------------------------------------------------------------

/// Up to twice the number of fractions, an encoding denotes itself; from there on
/// each further exponent doubles the number.
pub proof fn exponent_doubles_the_number(m: nat, unit: nat)
    requires
        unit > 0,
    ensures
        m < 2 * unit ==> size(m, unit) == m,
        m >= unit ==> size(m + unit, unit) == 2 * size(m, unit),
{
    let e = (m / unit) as int;
    let f = (m % unit) as int;
    lemma_fundamental_div_mod(m as int, unit as int);
    if m < unit {
        lemma_small_mod(m, unit);
        lemma_basic_div(m as int, unit as int);
    } else {
        if m < 2 * unit {
            lemma_fundamental_div_mod_converse(m as int, unit as int, 1, m - unit);
            lemma2_to64();
            assert((unit + f) * pow2(0) == m) by (nonlinear_arith)
                requires
                    pow2(0) == 1,
                    unit + f == m,
            ;
        }
        assert(e >= 1) by (nonlinear_arith)
            requires
                m == unit * e + f,
                0 <= f < unit,
                m >= unit,
        ;
        assert(m + unit == unit * (e + 1) + f) by (nonlinear_arith)
            requires
                m == unit * e + f,
        ;
        lemma_fundamental_div_mod_converse((m + unit) as int, unit as int, e + 1, f);
        lemma_pow2_unfold(e as nat);
        let p = pow2((e - 1) as nat) as int;
        assert((unit + f) * (2 * p) == 2 * ((unit + f) * p)) by (nonlinear_arith);
    }
}

/// Of two numbers, one is below the other, or they are equal; what is no number
/// is neither below nor above anything.
pub proof fn readings_are_ordered(a: Reading, b: Reading)
    ensures
        a.less(b) ==> !b.less(a),
        !a.is_nan() && !b.is_nan() ==> a.less(b) || b.less(a) || a.scaled() == b.scaled(),
        a.less(b) ==> a.scaled() < b.scaled(),
        a.is_nan() || b.is_nan() ==> !a.less(b),
{
}

/// The total order is the numeric order wherever that tells two numbers apart,
/// and it tells any two encodings apart: what has a sign comes before what has
/// none, and what is no number comes before or after all that is one.
pub proof fn total_order_extends_the_numeric_one(a: Reading, b: Reading)
    ensures
        a.less(b) ==> a.place() < b.place(),
        a.place() == b.place() ==> a == b,
        a.bits >= SIGN && b.bits < SIGN ==> a.place() < b.place(),
        a.is_nan() && !b.is_nan() && a.bits < SIGN ==> b.place() < a.place(),
        a.is_nan() && !b.is_nan() && a.bits >= SIGN ==> a.place() < b.place(),
{
    size_is_monotone(a.magnitude(), b.magnitude(), UNIT as nat);
    size_is_monotone(b.magnitude(), a.magnitude(), UNIT as nat);
}

/// A number that is not below the floor is kept; anything else becomes the floor.
pub proof fn raising_keeps_what_is_high_enough(r: Reading, floor: Reading)
    requires
        !floor.is_nan(),
    ensures
        !r.is_nan() && r.scaled() >= floor.scaled() ==> r.raised_to(floor) == r,
        r.is_nan() || r.scaled() < floor.scaled() ==> r.raised_to(floor) == floor,
{
}

/// A number within the range is kept, one beyond it becomes the end that it is
/// beyond, and what is no number is kept.
pub proof fn confining_keeps_what_is_in_range(r: Reading, low: Reading, high: Reading)
    requires
        !low.is_nan(),
        !high.is_nan(),
        low.scaled() <= high.scaled(),
    ensures
        !r.is_nan() && low.scaled() <= r.scaled() <= high.scaled() ==> r.confined(low, high) == r,
        !r.is_nan() && r.scaled() < low.scaled() ==> r.confined(low, high) == low,
        !r.is_nan() && r.scaled() > high.scaled() ==> r.confined(low, high) == high,
        r.is_nan() ==> r.confined(low, high) == r,
{
}

/// Rounding goes to a whole number at most one half away, and up where two are
/// as near; only what exceeds 64 bits is brought back to their largest number.
pub proof fn rounding_goes_to_the_nearest(r: Reading)
    ensures
        r.is_nan() || r.scaled() < 0 ==> r.rounded() == 0,
        !r.is_nan() && r.scaled() >= 0 && r.rounded() < u64::MAX ==> 2 * (r.rounded() * one())
            - one() <= 2 * r.scaled() < 2 * (r.rounded() * one()) + one(),
        !r.is_nan() && r.rounded() == u64::MAX ==> 2 * r.scaled() >= 2 * (u64::MAX * one())
            - one(),
{
    lemma_pow2_pos(149);
    if !r.is_nan() && !r.negative() {
        let x = 2 * r.scaled() + one();
        let d = 2 * one() as int;
        lemma_fundamental_div_mod(x, d);
        lemma_mod_bound(x, d);
        let q = x / d;
        assert(d * q == 2 * (q * one())) by (nonlinear_arith)
            requires
                d == 2 * one(),
        ;
        if q > u64::MAX {
            assert(q * one() >= u64::MAX * one()) by (nonlinear_arith)
                requires
                    q >= u64::MAX,
                    one() > 0,
            ;
        }
    } else if !r.is_nan() {
        if r.scaled() >= 0 {
            assert(r.scaled() == 0);
        }
    }
}

/// A number that reaches a bound reaches every smaller one.
pub proof fn what_reaches_more_reaches_less(r: WideReading, m: nat, n: nat)
    requires
        m <= n,
        r.at_least(n),
    ensures
        r.at_least(m),
{
    assert(m * wide_one() <= n * wide_one()) by (nonlinear_arith)
        requires
            m <= n,
    ;
}

/// The sign bit turns a number into its opposite, and nothing else changes.
pub proof fn sign_bit_negates(r: Reading)
    requires
        r.bits < SIGN,
    ensures
        (Reading { bits: (r.bits + SIGN) as u32 }).scaled() == -r.scaled(),
        (Reading { bits: (r.bits + SIGN) as u32 }).is_nan() == r.is_nan(),
        r.scaled() == size(r.bits as nat, UNIT as nat),
        r.is_nan() <==> r.bits > 0x7f80_0000,
{
}

/// The encoding of a whole number reaches that number, and not the next; what is
/// negative or no number reaches none.
pub proof fn whole_number_reaches_itself(r: WideReading, n: nat)
    ensures
        r.bits <= 0x7ff0_0000_0000_0000 && size(r.bits as nat, WIDE_UNIT as nat) == n * wide_one()
            ==> r.at_least(n) && !r.at_least(n + 1),
        r.bits > 0x7ff0_0000_0000_0000 ==> !r.at_least(n),
{
    lemma_pow2_pos(1074);
    assert((n + 1) * wide_one() == n * wide_one() + wide_one()) by (nonlinear_arith);
}

} // verus!
