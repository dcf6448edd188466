//! Double-precision values as IEEE 754 binary64 bit patterns, with the two
//! questions the engine asks of them: "is it zero?" and "is it at most that?".

use vstd::arithmetic::mul::{lemma_mul_inequality, lemma_mul_strict_inequality};
use vstd::arithmetic::power2::{
    lemma2_to64, lemma_pow2_pos, lemma_pow2_strictly_increases, lemma_pow2_unfold, pow2,
};
use vstd::prelude::*;

verus! {

/// Bit 63: the sign.
pub const SIGN_BIT: u64 = 0x8000_0000_0000_0000;

/// Magnitude of an infinity: every exponent bit set, fraction zero.
pub const INFINITY_MAGNITUDE: u64 = 0x7ff0_0000_0000_0000;

/// Two to the 52nd: the weight of the lowest exponent bit, and the hidden
/// leading one of a normal significand.
pub const HIDDEN_ONE: u64 = 0x0010_0000_0000_0000;

/// What the sign-free bits `m` of a binary64 value are worth, in units of
/// the smallest subnormal, two to the minus 1074.
///
/// With exponent field `e` and fraction `f`, a subnormal (`e == 0`) is worth
/// `f` units and a normal value `(2^52 + f) * 2^(e - 1)` units. The formula
/// is carried on through `e == 2047`, so an infinity lies above every finite
/// value.
pub open spec fn units(m: u64) -> nat {
    let e = m / HIDDEN_ONE;
    let f = m % HIDDEN_ONE;
    if e == 0 {
        f as nat
    } else {
        ((HIDDEN_ONE + f) * pow2((e - 1) as nat)) as nat
    }
}

/// A larger magnitude is worth strictly more units.
pub proof fn lemma_units_increase(a: u64, b: u64)
    requires
        a < b,
    ensures
        units(a) < units(b),
{
    let ea = a / HIDDEN_ONE;
    let fa = a % HIDDEN_ONE;
    let eb = b / HIDDEN_ONE;
    let fb = b % HIDDEN_ONE;
    assert(ea <= eb);
    if ea == eb {
        assert(fa < fb);
        if ea != 0 {
            let p = pow2((ea - 1) as nat) as int;
            lemma_pow2_pos((ea - 1) as nat);
            lemma_mul_strict_inequality(HIDDEN_ONE + fa, HIDDEN_ONE + fb, p);
        }
    } else {
        // units(a) < 2^52 * 2^ea <= units(b)
        let bound = HIDDEN_ONE * pow2(ea as nat);
        lemma_pow2_pos(ea as nat);
        if ea == 0 {
            assert(pow2(0) == 1) by {
                lemma2_to64();
            }
            assert(units(a) < bound);
        } else {
            let p = pow2((ea - 1) as nat) as int;
            lemma_pow2_pos((ea - 1) as nat);
            lemma_mul_strict_inequality(HIDDEN_ONE + fa, 2 * HIDDEN_ONE, p);
            assert(pow2(ea as nat) == 2 * pow2((ea - 1) as nat)) by {
                lemma_pow2_unfold(ea as nat);
            }
            assert((2 * HIDDEN_ONE) * p == HIDDEN_ONE * (2 * p)) by (nonlinear_arith);
            assert(units(a) < bound);
        }
        let q = pow2((eb - 1) as nat) as int;
        if ea < eb - 1 {
            lemma_pow2_strictly_increases(ea as nat, (eb - 1) as nat);
        }
        assert(pow2(ea as nat) <= q);
        assert(HIDDEN_ONE * pow2(ea as nat) <= HIDDEN_ONE * q) by (nonlinear_arith)
            requires
                pow2(ea as nat) <= q,
        ;
        lemma_mul_inequality(HIDDEN_ONE as int, HIDDEN_ONE + fb, q);
        assert(bound <= units(b));
    }
}

/// Only the magnitude zero is worth nothing: the zeros of binary64 are the
/// two bit patterns `+0.0` and `-0.0`.
pub proof fn lemma_zero_bits(d: Double)
    ensures
        d.spec_is_zero() <==> d.bits == 0 || d.bits == SIGN_BIT,
        d.spec_is_zero() ==> !d.spec_is_nan(),
{
    if d.spec_magnitude() > 0 {
        lemma_units_increase(0, d.spec_magnitude());
    }
}

/// One IEEE 754 binary64 value, held as its 64 bits.
#[derive(Clone, Copy, Debug, PartialEq, Eq, Structural)]
pub struct Double {
    pub bits: u64,
}

impl Double {
    /// The bits without the sign.
    pub open spec fn spec_magnitude(self) -> u64 {
        if self.bits >= SIGN_BIT {
            (self.bits - SIGN_BIT) as u64
        } else {
            self.bits
        }
    }

    /// The sign bit is set. True of `-0.0` and of half the NaNs as well.
    pub open spec fn spec_is_sign_negative(self) -> bool {
        self.bits >= SIGN_BIT
    }

    /// Not a number: the magnitude lies above that of an infinity.
    pub open spec fn spec_is_nan(self) -> bool {
        self.spec_magnitude() > INFINITY_MAGNITUDE
    }

    /// For a value that is not NaN: the value times two to the 1074th, an
    /// integer, with the infinities beyond every finite value.
    pub open spec fn scaled(self) -> int {
        if self.spec_is_sign_negative() {
            -(units(self.spec_magnitude()) as int)
        } else {
            units(self.spec_magnitude()) as int
        }
    }

    /// The value is `+0.0` or `-0.0`.
    pub open spec fn spec_is_zero(self) -> bool {
        self.scaled() == 0
    }

    /// The IEEE 754 comparison `self <= other`: false as soon as either side
    /// is NaN, otherwise the order of the values themselves.
    pub open spec fn spec_le(self, other: Double) -> bool {
        &&& !self.spec_is_nan()
        &&& !other.spec_is_nan()
        &&& self.scaled() <= other.scaled()
    }

    pub fn from_bits(bits: u64) -> (d: Double)
        ensures
            d.bits == bits,
    {
        Double { bits }
    }

    pub fn to_bits(self) -> (bits: u64)
        ensures
            bits == self.bits,
    {
        self.bits
    }

    #[verifier::when_used_as_spec(spec_magnitude)]
    pub fn magnitude(self) -> (m: u64)
        ensures
            m == self.spec_magnitude(),
    {
        if self.bits >= SIGN_BIT {
            self.bits - SIGN_BIT
        } else {
            self.bits
        }
    }

    #[verifier::when_used_as_spec(spec_is_sign_negative)]
    pub fn is_sign_negative(self) -> (r: bool)
        ensures
            r == self.spec_is_sign_negative(),
    {
        self.bits >= SIGN_BIT
    }

    #[verifier::when_used_as_spec(spec_is_nan)]
    pub fn is_nan(self) -> (r: bool)
        ensures
            r == self.spec_is_nan(),
    {
        self.magnitude() > INFINITY_MAGNITUDE
    }

    #[verifier::when_used_as_spec(spec_is_zero)]
    pub fn is_zero(self) -> (r: bool)
        ensures
            r == self.spec_is_zero(),
    {
        proof {
            lemma_zero_bits(self);
        }
        self.magnitude() == 0
    }

    #[verifier::when_used_as_spec(spec_le)]
    pub fn le(self, other: Double) -> (r: bool)
        ensures
            r == self.spec_le(other),
    {
        if self.is_nan() || other.is_nan() {
            return false;
        }
        let a: u64 = self.magnitude();
        let b: u64 = other.magnitude();
        proof {
            if a < b {
                lemma_units_increase(a, b);
            }
            if b < a {
                lemma_units_increase(b, a);
            }
            if 0 < a {
                lemma_units_increase(0, a);
            }
            if 0 < b {
                lemma_units_increase(0, b);
            }
        }
        if self.is_sign_negative() {
            if other.is_sign_negative() {
                b <= a
            } else {
                true
            }
        } else {
            if other.is_sign_negative() {
                a == 0 && b == 0
            } else {
                a <= b
            }
        }
    }
}

} // verus!
