//! Single-precision scalars held as their IEEE-754 binary32 encoding.
//!
//! Every rule of the movement core that reads a scalar reads only its sign,
//! its magnitude or whether it is a number at all: zeroing, negation and
//! comparison. Those are exact on the encoding, so the core carries scalars
//! as 32-bit patterns and leaves rounding arithmetic to its callers.

use vstd::arithmetic::power2::{lemma_pow2_pos, lemma_pow2_strictly_increases, lemma_pow2_unfold, pow2};
use vstd::prelude::*;

verus! {

/// The weight of the hidden bit: the fraction field counts below it, the
/// exponent field above it.
pub const HIDDEN_BIT: u32 = 0x0080_0000;

/// The encoding of the sign bit.
pub const SIGN_BIT: u32 = 0x8000_0000;

/// The magnitude of positive infinity; larger magnitudes are not numbers.
pub const INFINITY_MAGNITUDE: u32 = 0x7f80_0000;

/// A binary32 value, by its bits.
#[derive(Clone, Copy, Debug, PartialEq, Eq, Structural)]
pub struct Scalar {
    pub bits: u32,
}

/// A pair of scalars: a position, a velocity or a force in the plane.
#[derive(Clone, Copy, Debug, PartialEq, Eq, Structural)]
pub struct Vec2 {
    pub x: Scalar,
    pub y: Scalar,
}

impl Scalar {
    /// The encoding without its sign bit.
    pub open spec fn magnitude(self) -> int {
        if self.bits >= SIGN_BIT {
            self.bits - SIGN_BIT
        } else {
            self.bits as int
        }
    }

    /// Whether the sign bit is set.
    pub open spec fn negative(self) -> bool {
        self.bits >= SIGN_BIT
    }

    /// Whether the encoding is not a number.
    pub open spec fn nan(self) -> bool {
        self.magnitude() > INFINITY_MAGNITUDE
    }

    /// Whether the encoding is positive or negative zero.
    pub open spec fn zero(self) -> bool {
        self.magnitude() == 0
    }

    /// The exponent field.
    pub open spec fn exponent(self) -> int {
        self.magnitude() / (HIDDEN_BIT as int)
    }

    /// The fraction field.
    pub open spec fn fraction(self) -> int {
        self.magnitude() % (HIDDEN_BIT as int)
    }

    /// The absolute value that the encoding stands for, counted in units of
    /// 2^-149, the smallest step of the format. Infinity counts as the power
    /// of two that follows the largest finite number.
    pub open spec fn size(self) -> int {
        if self.exponent() == 0 {
            self.fraction()
        } else {
            (HIDDEN_BIT + self.fraction()) * pow2((self.exponent() - 1) as nat)
        }
    }

    /// The number that the encoding stands for, in units of 2^-149.
    pub open spec fn value(self) -> int {
        if self.negative() {
            -self.size()
        } else {
            self.size()
        }
    }

    /// The place of a number on the integer line: numbers compare as their
    /// ranks do, and the two zeros share rank 0.
    pub open spec fn rank(self) -> int {
        if self.negative() {
            -self.magnitude()
        } else {
            self.magnitude()
        }
    }

    /// IEEE-754 `<`: false as soon as one side is not a number.
    pub open spec fn less(self, other: Scalar) -> bool {
        !self.nan() && !other.nan() && self.rank() < other.rank()
    }

    /// IEEE-754 `==`: false as soon as one side is not a number; the two
    /// zeros are equal.
    pub open spec fn same(self, other: Scalar) -> bool {
        !self.nan() && !other.nan() && self.rank() == other.rank()
    }

    /// The encoding with its sign bit flipped.
    pub open spec fn negated(self) -> Scalar {
        if self.bits >= SIGN_BIT {
            Scalar { bits: (self.bits - SIGN_BIT) as u32 }
        } else {
            Scalar { bits: (self.bits + SIGN_BIT) as u32 }
        }
    }

    /// Positive zero.
    pub open spec fn zero_value() -> Scalar {
        Scalar { bits: 0 }
    }

    pub fn from_bits(bits: u32) -> (s: Scalar)
        ensures
            s.bits == bits,
    {
        Scalar { bits }
    }

    pub fn to_bits(self) -> (bits: u32)
        ensures
            bits == self.bits,
    {
        self.bits
    }

    /// Positive zero.
    pub fn new_zero() -> (s: Scalar)
        ensures
            s == Scalar::zero_value(),
            s.zero(),
            !s.negative(),
    {
        Scalar { bits: 0 }
    }

    fn exec_magnitude(self) -> (m: u32)
        ensures
            m == self.magnitude(),
            m < SIGN_BIT,
    {
        if self.bits >= SIGN_BIT {
            self.bits - SIGN_BIT
        } else {
            self.bits
        }
    }

    fn exec_rank(self) -> (k: i64)
        ensures
            k == self.rank(),
    {
        let m: u32 = self.exec_magnitude();
        if self.bits >= SIGN_BIT {
            -(m as i64)
        } else {
            m as i64
        }
    }

    pub fn is_nan(self) -> (r: bool)
        ensures
            r == self.nan(),
    {
        self.exec_magnitude() > INFINITY_MAGNITUDE
    }

    pub fn is_zero(self) -> (r: bool)
        ensures
            r == self.zero(),
    {
        self.exec_magnitude() == 0
    }

    /// `self < other` as IEEE-754 defines it.
    pub fn lt(self, other: Scalar) -> (r: bool)
        ensures
            r == self.less(other),
    {
        !self.is_nan() && !other.is_nan() && self.exec_rank() < other.exec_rank()
    }

    /// `self > other` as IEEE-754 defines it.
    pub fn gt(self, other: Scalar) -> (r: bool)
        ensures
            r == other.less(self),
    {
        other.lt(self)
    }

    /// `self == other` as IEEE-754 defines it.
    pub fn same_value(self, other: Scalar) -> (r: bool)
        ensures
            r == self.same(other),
    {
        !self.is_nan() && !other.is_nan() && self.exec_rank() == other.exec_rank()
    }

    /// `-self`: the sign bit flips, whatever the rest encodes.
    pub fn neg(self) -> (r: Scalar)
        ensures
            r == self.negated(),
            r.magnitude() == self.magnitude(),
            r.negative() == !self.negative(),
    {
        if self.bits >= SIGN_BIT {
            Scalar { bits: self.bits - SIGN_BIT }
        } else {
            Scalar { bits: self.bits + SIGN_BIT }
        }
    }
}

impl Vec2 {
    /// The vector of two positive zeros.
    pub open spec fn zero_value() -> Vec2 {
        Vec2 { x: Scalar::zero_value(), y: Scalar::zero_value() }
    }

    /// Componentwise IEEE-754 equality.
    pub open spec fn same(self, other: Vec2) -> bool {
        self.x.same(other.x) && self.y.same(other.y)
    }

    pub fn new(x: Scalar, y: Scalar) -> (v: Vec2)
        ensures
            v.x == x,
            v.y == y,
    {
        Vec2 { x, y }
    }

    /// The vector of two positive zeros.
    pub fn new_zero() -> (v: Vec2)
        ensures
            v == Vec2::zero_value(),
    {
        Vec2 { x: Scalar::new_zero(), y: Scalar::new_zero() }
    }

    /// Whether the two vectors are equal component by component.
    pub fn same_value(self, other: Vec2) -> (r: bool)
        ensures
            r == self.same(other),
    {
        self.x.same_value(other.x) && self.y.same_value(other.y)
    }
}

/// A larger magnitude stands for a larger absolute value.
pub proof fn lemma_size_increases(a: Scalar, b: Scalar)
    requires
        a.magnitude() < b.magnitude(),
    ensures
        0 <= a.size() < b.size(),
{
    let h = HIDDEN_BIT as int;
    let ea = a.exponent();
    let eb = b.exponent();
    let fa = a.fraction();
    let fb = b.fraction();
    assert(0 <= fa < h && 0 <= fb < h);
    assert(0 <= ea <= eb) by (nonlinear_arith)
        requires
            0 <= a.magnitude() < b.magnitude(),
            ea == a.magnitude() / h,
            eb == b.magnitude() / h,
            h == 0x0080_0000,
    ;
    assert(a.magnitude() == h * ea + fa && b.magnitude() == h * eb + fb) by (nonlinear_arith)
        requires
            ea == a.magnitude() / h,
            eb == b.magnitude() / h,
            fa == a.magnitude() % h,
            fb == b.magnitude() % h,
            h == 0x0080_0000,
    ;
    if eb == 0 {
    } else {
        let pb = pow2((eb - 1) as nat) as int;
        lemma_pow2_pos((eb - 1) as nat);
        if ea == 0 {
            assert(h <= (h + fb) * pb) by (nonlinear_arith)
                requires
                    pb >= 1,
                    fb >= 0,
                    h >= 0,
            ;
        } else {
            let pa = pow2((ea - 1) as nat) as int;
            lemma_pow2_pos((ea - 1) as nat);
            assert(0 <= (h + fa) * pa) by (nonlinear_arith)
                requires
                    pa >= 1,
                    fa >= 0,
                    h >= 0,
            ;
            if ea == eb {
                assert((h + fa) * pa < (h + fb) * pa) by (nonlinear_arith)
                    requires
                        pa >= 1,
                        fa < fb,
                ;
            } else {
                lemma_pow2_unfold(ea as nat);
                if ea < eb - 1 {
                    lemma_pow2_strictly_increases(ea as nat, (eb - 1) as nat);
                }
                assert(2 * pa <= pb);
                assert((h + fa) * pa < (h + fb) * pb) by (nonlinear_arith)
                    requires
                        pa >= 1,
                        2 * pa <= pb,
                        0 <= fa < h,
                        0 <= fb,
                ;
            }
        }
    }
}

/// Numbers are ordered by rank exactly as the values they stand for are
/// ordered, and share a rank exactly when they share a value: comparing
/// ranks is comparing numbers.
pub proof fn lemma_rank_orders_as_value(a: Scalar, b: Scalar)
    ensures
        a.rank() < b.rank() <==> a.value() < b.value(),
        a.rank() == b.rank() <==> a.value() == b.value(),
{
    let zero = Scalar { bits: 0 };
    assert(zero.size() == 0);
    if a.magnitude() < b.magnitude() {
        lemma_size_increases(a, b);
    }
    if b.magnitude() < a.magnitude() {
        lemma_size_increases(b, a);
    }
    if 0 < a.magnitude() {
        lemma_size_increases(zero, a);
    }
    if 0 < b.magnitude() {
        lemma_size_increases(zero, b);
    }
    if a.magnitude() == 0 {
        assert(a.size() == 0);
    }
    if b.magnitude() == 0 {
        assert(b.size() == 0);
    }
    if a.magnitude() == b.magnitude() {
        assert(a.size() == b.size());
    }
}

} // verus!
