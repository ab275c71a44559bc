//! Single-precision scalars carried as IEEE 754 binary32 bit patterns.
//!
//! The pipeline only ever moves scalars around, flips the sign of one of
//! them and seeds a few exact constants, so a scalar is held as its 32-bit
//! pattern and the operations below are exact on that pattern.

use vstd::prelude::*;
use vstd::arithmetic::power2::{
    pow2, lemma2_to64, lemma_pow2_adds, lemma_pow2_pos, lemma_pow2_strictly_increases,
    lemma_pow2_unfold,
};

verus! {

/// Weight of the sign bit in a bit pattern.
pub const SIGN_WEIGHT: u32 = 0x8000_0000;

/// Weight of the lowest exponent bit, and the value of the implicit leading
/// bit of a normal significand.
pub const HIDDEN_BIT: u32 = 0x0080_0000;

/// Bit pattern of positive infinity. Every finite scalar without a sign has
/// a smaller pattern, every NaN without a sign a larger one.
pub const INFINITY_BITS: u32 = 0x7f80_0000;

/// Bit pattern of one half.
pub const ONE_HALF_BITS: u32 = 0x3f00_0000;

/// Bit pattern of one and a half.
pub const THREE_HALVES_BITS: u32 = 0x3fc0_0000;

/// Largest denominator exponent accepted by [`Scalar::dyadic`].
pub const MAX_DYADIC_SHIFT: u32 = 126;

/// A 32-bit scalar, stored as the bit pattern of an IEEE 754 binary32 number.
///
/// Equality on `Scalar` is equality of bit patterns.
#[derive(Clone, Copy, Debug, PartialEq, Eq, Structural)]
pub struct Scalar {
    pub bits: u32,
}

impl Scalar {
    /// Whether the sign bit is set.
    pub open spec fn sign_bit(self) -> bool {
        self.bits >= SIGN_WEIGHT
    }

    /// The eight-bit biased exponent field.
    pub open spec fn exponent_field(self) -> nat {
        ((self.bits as nat) / (HIDDEN_BIT as nat)) % 256
    }

    /// The twenty-three-bit fraction field.
    pub open spec fn mantissa_field(self) -> nat {
        (self.bits as nat) % (HIDDEN_BIT as nat)
    }

    /// Neither an infinity nor a NaN.
    pub open spec fn is_finite(self) -> bool {
        self.exponent_field() < 255
    }

    /// Not a number: all exponent bits set and a non-zero fraction.
    pub open spec fn spec_is_nan(self) -> bool {
        self.exponent_field() == 255 && self.mantissa_field() != 0
    }

    /// Absolute value of a finite scalar, counted in units of 2^-149 (the
    /// smallest positive binary32 number), which makes it an integer.
    pub open spec fn magnitude(self) -> nat {
        if self.exponent_field() == 0 {
            self.mantissa_field()
        } else {
            (HIDDEN_BIT as nat + self.mantissa_field()) * pow2((self.exponent_field() - 1) as nat)
        }
    }

    /// Signed value of a finite scalar in units of 2^-149.
    pub open spec fn scaled_value(self) -> int {
        if self.sign_bit() {
            -(self.magnitude() as int)
        } else {
            self.magnitude() as int
        }
    }

    /// Whether the scalar is the finite, unsigned binary32 number that
    /// equals `numerator / 2^shift`.
    pub open spec fn is_dyadic(self, numerator: int, shift: nat) -> bool
        recommends
            shift <= 149,
    {
        &&& self.is_finite()
        &&& !self.sign_bit()
        &&& self.scaled_value() == numerator * pow2((149 - shift) as nat)
    }

    /// Wraps a raw bit pattern.
    pub fn from_bits(bits: u32) -> (s: Scalar)
        ensures
            s.bits == bits,
    {
        Scalar { bits }
    }

    /// The raw bit pattern.
    pub fn to_bits(self) -> (bits: u32)
        ensures
            bits == self.bits,
    {
        self.bits
    }

    /// Positive zero.
    pub fn zero() -> (s: Scalar)
        ensures
            s.bits == 0,
            s.scaled_value() == 0,
            s.is_finite(),
            !s.spec_is_nan(),
    {
        Scalar { bits: 0 }
    }

    /// Whether the scalar is a NaN.
    #[verifier::when_used_as_spec(spec_is_nan)]
    pub fn is_nan(self) -> (nan: bool)
        ensures
            nan == self.spec_is_nan(),
    {
        let low: u32 = if self.bits >= SIGN_WEIGHT {
            self.bits - SIGN_WEIGHT
        } else {
            self.bits
        };
        low > INFINITY_BITS
    }

    /// The scalar with its sign flipped and every other bit kept.
    ///
    /// On every scalar that is not a NaN this is exact negation, which is
    /// also what multiplying by minus one yields.
    pub fn negated(self) -> (r: Scalar)
        ensures
            r.sign_bit() != self.sign_bit(),
            r.exponent_field() == self.exponent_field(),
            r.mantissa_field() == self.mantissa_field(),
            r.scaled_value() == -self.scaled_value(),
            r.spec_is_nan() == self.spec_is_nan(),
            r == self.spec_negated(),
    {
        if self.bits >= SIGN_WEIGHT {
            Scalar { bits: self.bits - SIGN_WEIGHT }
        } else {
            Scalar { bits: self.bits + SIGN_WEIGHT }
        }
    }

    /// Bit pattern of the negation: the sign bit toggled.
    pub open spec fn spec_negated(self) -> Scalar {
        if self.bits >= SIGN_WEIGHT {
            Scalar { bits: (self.bits - SIGN_WEIGHT) as u32 }
        } else {
            Scalar { bits: (self.bits + SIGN_WEIGHT) as u32 }
        }
    }

    /// The scalar that equals `numerator / 2^shift` exactly.
    ///
    /// Every such quotient with a numerator below 2^24 and a shift of at
    /// most 126 is a binary32 number, so nothing is rounded.
    pub fn dyadic(numerator: u32, shift: u32) -> (r: Scalar)
        requires
            numerator < 0x0100_0000,
            shift <= MAX_DYADIC_SHIFT,
        ensures
            r.is_dyadic(numerator as int, shift as nat),
    {
        if numerator == 0 {
            return Scalar { bits: 0 };
        }
        let mut significand: u32 = numerator;
        let mut exponent: u32 = 150 - shift;
        proof {
            lemma2_to64();
        }
        while significand < HIDDEN_BIT
            invariant
                0 < significand < 0x0100_0000,
                shift <= MAX_DYADIC_SHIFT,
                exponent <= 150 - shift,
                (150 - shift) - exponent <= 23,
                significand >= pow2(((150 - shift) - exponent) as nat),
                pow2(23) == HIDDEN_BIT,
                significand * pow2((exponent - 1) as nat) == numerator * pow2(
                    (149 - shift) as nat,
                ),
            decreases exponent,
        {
            proof {
                let doublings = ((150 - shift) - exponent) as nat;
                lemma_pow2_unfold((exponent - 1) as nat);
                lemma_pow2_unfold(doublings + 1);
                lemma_halving_keeps_product(
                    significand as int,
                    pow2((exponent - 2) as nat) as int,
                    pow2((exponent - 1) as nat) as int,
                );
            }
            significand = significand * 2;
            exponent = exponent - 1;
        }
        Scalar { bits: exponent * HIDDEN_BIT + (significand - HIDDEN_BIT) }
    }
}

/// Doubling one factor while halving the other leaves a product unchanged.
proof fn lemma_halving_keeps_product(a: int, half: int, whole: int)
    requires
        whole == 2 * half,
    ensures
        (2 * a) * half == a * whole,
{
    assert((2 * a) * half == a * (2 * half)) by (nonlinear_arith);
}

/// Flipping the sign of a scalar keeps its exponent and fraction, so it
/// negates the value and turns no number into a NaN.
pub proof fn lemma_negation_is_exact(s: Scalar)
    ensures
        s.spec_negated().sign_bit() != s.sign_bit(),
        s.spec_negated().exponent_field() == s.exponent_field(),
        s.spec_negated().mantissa_field() == s.mantissa_field(),
        s.spec_negated().scaled_value() == -s.scaled_value(),
        s.spec_negated().spec_is_nan() == s.spec_is_nan(),
        s.spec_negated().spec_negated() == s,
{
}

/// A product grows with its first factor when the second is positive.
proof fn lemma_product_grows(a: int, b: int, scale: int)
    requires
        a < b,
        0 < scale,
    ensures
        a * scale < b * scale,
{
    assert(a * scale < b * scale) by (nonlinear_arith)
        requires
            a < b,
            0 < scale,
    ;
}

/// A product does not shrink when its second factor does not.
proof fn lemma_product_widens(a: int, small: int, large: int)
    requires
        0 <= a,
        small <= large,
    ensures
        a * small <= a * large,
{
    assert(a * small <= a * large) by (nonlinear_arith)
        requires
            0 <= a,
            small <= large,
    ;
}

/// Among finite scalars without a sign, the order of the bit patterns is
/// the order of the numbers.
pub proof fn lemma_order_follows_bits(a: Scalar, b: Scalar)
    requires
        !a.sign_bit(),
        !b.sign_bit(),
        a.is_finite(),
        b.is_finite(),
        a.bits < b.bits,
    ensures
        a.scaled_value() < b.scaled_value(),
{
    let hidden = HIDDEN_BIT as int;
    let ea = a.exponent_field();
    let eb = b.exponent_field();
    let ma = a.mantissa_field() as int;
    let mb = b.mantissa_field() as int;
    if ea == eb {
        if ea != 0 {
            lemma_pow2_pos((ea - 1) as nat);
            lemma_product_grows(hidden + ma, hidden + mb, pow2((ea - 1) as nat) as int);
        }
    } else {
        lemma_pow2_pos((eb - 1) as nat);
        lemma_product_widens(hidden, 1, pow2((eb - 1) as nat) as int);
        lemma_product_widens(mb, 0, pow2((eb - 1) as nat) as int);
        assert((hidden + mb) * pow2((eb - 1) as nat) == hidden * pow2((eb - 1) as nat) + mb * pow2(
            (eb - 1) as nat,
        )) by (nonlinear_arith);
        if ea != 0 {
            let low = pow2((ea - 1) as nat) as int;
            lemma_pow2_pos((ea - 1) as nat);
            lemma_pow2_unfold(ea);
            lemma_product_grows(hidden + ma, 2 * hidden, low);
            assert((2 * hidden) * low == hidden * (2 * low)) by (nonlinear_arith);
            if ea < eb - 1 {
                lemma_pow2_strictly_increases(ea, (eb - 1) as nat);
            }
            lemma_product_widens(hidden, pow2(ea) as int, pow2((eb - 1) as nat) as int);
        }
    }
}

/// A finite scalar is determined by its sign and its value: two finite
/// scalars of one sign and one value have the same bit pattern.
pub proof fn lemma_value_determines_scalar(a: Scalar, b: Scalar)
    requires
        a.is_finite(),
        b.is_finite(),
        a.sign_bit() == b.sign_bit(),
        a.scaled_value() == b.scaled_value(),
    ensures
        a == b,
{
    let low_a = if a.sign_bit() {
        a.spec_negated()
    } else {
        a
    };
    let low_b = if b.sign_bit() {
        b.spec_negated()
    } else {
        b
    };
    if low_a.bits < low_b.bits {
        lemma_order_follows_bits(low_a, low_b);
    } else if low_b.bits < low_a.bits {
        lemma_order_follows_bits(low_b, low_a);
    }
}

/// There is one scalar for a dyadic number: `numerator / 2^shift` has a
/// single bit pattern.
pub proof fn lemma_dyadic_is_unique(a: Scalar, b: Scalar, numerator: int, shift: nat)
    requires
        a.is_dyadic(numerator, shift),
        b.is_dyadic(numerator, shift),
    ensures
        a == b,
{
    lemma_value_determines_scalar(a, b);
}

/// The bit patterns of one half and of one and a half are those of the
/// dyadic numbers 1/2 and 3/2, and of no other scalar.
pub proof fn lemma_halves(s: Scalar)
    ensures
        s.is_dyadic(1, 1) <==> s.bits == ONE_HALF_BITS,
        s.is_dyadic(3, 1) <==> s.bits == THREE_HALVES_BITS,
{
    lemma2_to64();
    lemma_pow2_adds(23, 125);
    lemma_pow2_adds(22, 126);
    let half = Scalar { bits: ONE_HALF_BITS };
    let three_halves = Scalar { bits: THREE_HALVES_BITS };
    assert(half.exponent_field() == 126 && half.mantissa_field() == 0);
    assert(three_halves.exponent_field() == 127 && three_halves.mantissa_field() == 0x40_0000);
    assert((0x80_0000 + 0x40_0000) * pow2(126) == 3 * (pow2(22) * pow2(126))) by (nonlinear_arith)
        requires
            pow2(22) == 0x40_0000,
    ;
    if s.is_dyadic(1, 1) {
        lemma_dyadic_is_unique(s, half, 1, 1);
    }
    if s.is_dyadic(3, 1) {
        lemma_dyadic_is_unique(s, three_halves, 3, 1);
    }
}

} // verus!
