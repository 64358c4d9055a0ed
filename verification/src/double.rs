//! Double-precision numbers, held by their IEEE 754 bit pattern.
//!
//! The library stores readings and settings and orders them against limits; it never does
//! arithmetic on them. Ordering needs only the bit pattern, and is exact.

use vstd::arithmetic::power2::{lemma_pow2_pos, lemma_pow2_unfold, pow2};
use vstd::prelude::*;

verus! {

/// Two to the power of 52: the number of fractions per exponent.
pub const FRACTIONS: u64 = 0x0010_0000_0000_0000;

/// Two to the power of 63: the weight of the sign bit.
pub const SIGN: u64 = 0x8000_0000_0000_0000;

/// The magnitude bits of infinity; those of every NaN are larger.
pub const INFINITY_BITS: u64 = 0x7ff0_0000_0000_0000;

/// The bits of zero.
pub const ZERO: u64 = 0;

/// The bits of the quiet NaN that stands for "no measurement yet".
pub const NAN: u64 = 0x7ff8_0000_0000_0000;

/// The bits of the double nearest to one millionth.
pub const MICRO: u64 = 0x3eb0_c6f7_a0b5_ed8d;

/// The bits of the double nearest to one thousandth.
pub const MILLI: u64 = 0x3f50_624d_d2f1_a9fc;

/// The bits of one.
pub const ONE: u64 = 0x3ff0_0000_0000_0000;

/// The bits of ten.
pub const TEN: u64 = 0x4024_0000_0000_0000;

/// The bits of one hundred.
pub const HUNDRED: u64 = 0x4059_0000_0000_0000;

/// The bits of one thousand.
pub const KILO: u64 = 0x408f_4000_0000_0000;

/// The bits of one million.
pub const MEGA: u64 = 0x412e_8480_0000_0000;

/// The bits of one billion: the reading of an overloaded or open input.
pub const OVERLOAD: u64 = 0x41cd_cd65_0000_0000;

/// A double-precision number.
#[derive(Clone, Copy, PartialEq, Eq, Debug, Structural)]
pub struct Double {
    /// The IEEE 754 binary64 encoding.
    pub bits: u64,
}

/// The magnitude that the lower 63 bits denote, in units of the smallest positive double
/// (two to the power of -1074). Infinity comes out above every finite magnitude.
pub open spec fn magnitude(m: nat) -> nat {
    let exponent = m / FRACTIONS as nat;
    let fraction = m % FRACTIONS as nat;
    if exponent == 0 {
        fraction
    } else {
        (FRACTIONS as nat + fraction) * pow2((exponent - 1) as nat)
    }
}

impl Double {
    /// The encoding without the sign.
    pub open spec fn unsigned_bits(self) -> nat {
        self.bits as nat % SIGN as nat
    }

    /// Whether the sign bit is set.
    pub open spec fn negative(self) -> bool {
        self.bits >= SIGN
    }

    /// Whether this is not a number.
    pub open spec fn nan(self) -> bool {
        self.unsigned_bits() > INFINITY_BITS
    }

    /// Whether this is neither infinite nor a NaN.
    pub open spec fn finite(self) -> bool {
        self.unsigned_bits() < INFINITY_BITS
    }

    /// The value, in units of the smallest positive double. Meaningless for a NaN.
    pub open spec fn value(self) -> int {
        if self.negative() {
            -(magnitude(self.unsigned_bits()) as int)
        } else {
            magnitude(self.unsigned_bits()) as int
        }
    }

    /// Numeric less-than; nothing is less than a NaN, nor a NaN less than anything.
    pub open spec fn below(self, other: Double) -> bool {
        !self.nan() && !other.nan() && self.value() < other.value()
    }

    /// Numeric less-than-or-equal; false where a NaN takes part.
    pub open spec fn at_most(self, other: Double) -> bool {
        !self.nan() && !other.nan() && self.value() <= other.value()
    }

    /// The number without its sign.
    pub open spec fn magnitude_of(self) -> Double {
        Double { bits: self.unsigned_bits() as u64 }
    }

    /// Decides `nan`.
    pub fn is_nan(self) -> (b: bool)
        ensures
            b == self.nan(),
    {
        self.bits % SIGN > INFINITY_BITS
    }

    /// Decides `finite`.
    pub fn is_finite(self) -> (b: bool)
        ensures
            b == self.finite(),
    {
        self.bits % SIGN < INFINITY_BITS
    }

    /// Drops the sign.
    pub fn abs(self) -> (r: Double)
        ensures
            r == self.magnitude_of(),
            r.nan() == self.nan(),
            self.value() >= 0 ==> r.value() == self.value(),
            self.value() < 0 ==> r.value() == -self.value(),
    {
        Double { bits: self.bits % SIGN }
    }

    /// Decides `below`.
    pub fn lt(self, other: Double) -> (b: bool)
        ensures
            b == self.below(other),
    {
        if self.is_nan() || other.is_nan() {
            return false;
        }
        let a: u64 = self.bits % SIGN;
        let b: u64 = other.bits % SIGN;
        proof {
            lemma_magnitude_order(a as nat, b as nat);
            lemma_magnitude_order(0, a as nat);
            lemma_magnitude_order(0, b as nat);
        }
        if self.bits < SIGN {
            other.bits < SIGN && a < b
        } else if other.bits < SIGN {
            a > 0 || b > 0
        } else {
            a > b
        }
    }

    /// Decides `at_most`.
    pub fn le(self, other: Double) -> (b: bool)
        ensures
            b == self.at_most(other),
    {
        !self.is_nan() && !other.is_nan() && !other.lt(self)
    }

    /// Decides numeric equality; false where a NaN takes part.
    pub fn same_value(self, other: Double) -> (b: bool)
        ensures
            b == (self.at_most(other) && other.at_most(self)),
    {
        self.le(other) && other.le(self)
    }
}

/// The value of a whole number.
pub open spec fn whole(n: nat) -> int {
    (n * pow2(1074)) as int
}

/// Converts a whole number, exactly.
pub fn from_u32(n: u32) -> (r: Double)
    ensures
        !r.nan(),
        r.value() == whole(n as nat),
{
    if n == 0 {
        assert(0 * pow2(1074) == 0) by (nonlinear_arith);
        return Double { bits: 0 };
    }
    let mut k: u64 = 0;
    let mut p: u64 = 1;
    let mut q: u64 = FRACTIONS;
    proof {
        vstd::arithmetic::power2::lemma2_to64();
        vstd::arithmetic::power2::lemma2_to64_rest();
    }
    while 2 * p <= n as u64
        invariant
            0 < n,
            1 <= p <= n,
            k <= 31,
            p == pow2(k as nat),
            q == pow2((52 - k) as nat),
        decreases n - p,
    {
        proof {
            lemma_pow2_unfold((k + 1) as nat);
            lemma_pow2_unfold((52 - k) as nat);
            lemma_pow2_pos((52 - k - 1) as nat);
            if k == 31 {
                vstd::arithmetic::power2::lemma2_to64();
            }
        }
        p = 2 * p;
        q = q / 2;
        k = k + 1;
    }
    let f: u64 = n as u64 - p;
    proof {
        vstd::arithmetic::power2::lemma_pow2_adds(k as nat, (52 - k) as nat);
        vstd::arithmetic::power2::lemma2_to64_rest();
        assert(p * q == FRACTIONS);
        assert(f * q < p * q) by (nonlinear_arith)
            requires
                f < p,
                q > 0,
        ;
        lemma_pow2_pos((52 - k) as nat);
    }
    let r: Double = Double { bits: (1023 + k) * FRACTIONS + f * q };
    proof {
        let m = r.bits as nat;
        let e = (1023 + k) as nat;
        let low = (f * q) as nat;
        assert(m == e * FRACTIONS + low);
        assert(m / FRACTIONS as nat == e && m % FRACTIONS as nat == low) by (nonlinear_arith)
            requires
                m == e * FRACTIONS + low,
                low < FRACTIONS,
        ;
        assert(r.unsigned_bits() == m);
        let w = pow2((1022 + k) as nat);
        assert(magnitude(m) == (FRACTIONS as nat + low) * w);
        assert(FRACTIONS + low == n * q) by (nonlinear_arith)
            requires
                p * q == FRACTIONS,
                low == f * q,
                n == p + f,
        ;
        vstd::arithmetic::power2::lemma_pow2_adds((52 - k) as nat, (1022 + k) as nat);
        assert((n * q) * w == n * (q * w)) by (nonlinear_arith);
    }
    r
}

/// The limits that are whole numbers denote those numbers.
pub proof fn law_whole_limits()
    ensures
        (Double { bits: ONE }).value() == whole(1),
        (Double { bits: TEN }).value() == whole(10),
        (Double { bits: HUNDRED }).value() == whole(100),
        (Double { bits: KILO }).value() == whole(1000),
        (Double { bits: MEGA }).value() == whole(1_000_000),
        (Double { bits: OVERLOAD }).value() == whole(1_000_000_000),
        (Double { bits: ZERO }).value() == 0,
        (Double { bits: NAN }).nan(),
{
    vstd::arithmetic::power2::lemma2_to64();
    vstd::arithmetic::power2::lemma2_to64_rest();
    lemma_whole_bits(ONE, 1023, 1, 0x0010_0000_0000_0000, 52);
    lemma_whole_bits(TEN, 1026, 5, 0x0004_0000_0000_0000, 50);
    lemma_whole_bits(HUNDRED, 1029, 25, 0x0001_0000_0000_0000, 48);
    lemma_whole_bits(KILO, 1032, 125, 0x0000_4000_0000_0000, 46);
    lemma_whole_bits(MEGA, 1042, 15625, 0x0000_0080_0000_0000, 39);
    lemma_whole_bits(OVERLOAD, 1052, 1953125, 0x0000_0001_0000_0000, 32);
    assert(1 * 1 * pow2(1074) == whole(1)) by (nonlinear_arith);
    assert((5 * 2) * pow2(1074) == whole(10)) by (nonlinear_arith);
    assert((25 * 4) * pow2(1074) == whole(100)) by (nonlinear_arith);
    assert((125 * 8) * pow2(1074) == whole(1000)) by (nonlinear_arith);
    assert((15625 * 64) * pow2(1074) == whole(1_000_000)) by (nonlinear_arith);
    assert((1953125 * 512) * pow2(1074) == whole(1_000_000_000)) by (nonlinear_arith);
}

/// The value of an encoding with exponent `e` whose fraction, with the leading one, is an odd number
/// times a power of two.
proof fn lemma_whole_bits(bits: u64, e: nat, odd: nat, unit: nat, z: nat)
    requires
        bits < INFINITY_BITS,
        z <= 52,
        1023 <= e,
        e - 1023 + z >= 52,
        unit == pow2(z),
        bits as nat / FRACTIONS as nat == e,
        FRACTIONS as nat + bits as nat % FRACTIONS as nat == odd * unit,
    ensures
        (Double { bits }).value() == (odd * pow2((e - 1023 + z - 52) as nat)) * pow2(1074),
{
    let w = pow2((e - 1) as nat);
    let shift = (e - 1023 + z - 52) as nat;
    vstd::arithmetic::power2::lemma_pow2_adds(z, (e - 1) as nat);
    vstd::arithmetic::power2::lemma_pow2_adds(shift, 1074);
    assert(z + (e - 1) == shift + 1074);
    assert((odd * unit) * w == odd * (unit * w)) by (nonlinear_arith);
    assert((odd * pow2(shift)) * pow2(1074) == odd * (pow2(shift) * pow2(1074))) by (
    nonlinear_arith);
}

/// A larger encoding denotes a larger magnitude, and only a larger one does.
pub proof fn lemma_magnitude_order(a: nat, b: nat)
    ensures
        (a < b) == (magnitude(a) < magnitude(b)),
        (a == b) == (magnitude(a) == magnitude(b)),
{
    if a < b {
        lemma_magnitude_increases(a, b);
    } else if b < a {
        lemma_magnitude_increases(b, a);
    }
}

proof fn lemma_magnitude_increases(a: nat, b: nat)
    requires
        a < b,
    ensures
        magnitude(a) < magnitude(b),
    decreases b - a,
{
    lemma_magnitude_step((b - 1) as nat);
    if a < b - 1 {
        lemma_magnitude_increases(a, (b - 1) as nat);
    }
}

proof fn lemma_magnitude_step(m: nat)
    ensures
        magnitude(m) < magnitude(m + 1),
{
    let p = FRACTIONS as nat;
    let e = m / p;
    let f = m % p;
    if e > 0 {
        lemma_pow2_pos((e - 1) as nat);
    }
    if f + 1 < p {
        assert((m + 1) / p == e && (m + 1) % p == f + 1);
        if e > 0 {
            let w = pow2((e - 1) as nat);
            assert((p + f) * w < (p + f + 1) * w) by (nonlinear_arith)
                requires
                    w > 0,
            ;
        }
    } else {
        assert((m + 1) / p == e + 1 && (m + 1) % p == 0);
        if e == 0 {
            assert(pow2(0) == 1) by {
                vstd::arithmetic::power2::lemma2_to64();
            }
        } else {
            let w = pow2((e - 1) as nat);
            lemma_pow2_unfold(e);
            assert((p + f) * w < p * (2 * w)) by (nonlinear_arith)
                requires
                    w > 0,
                    f < p,
            ;
            assert(p * (2 * w) == p * pow2(e));
        }
    }
}

} // verus!
