//! Scalars of the simulation, held by their IEEE 754 binary32 encoding.
//!
//! The encoding is an unsigned 32-bit integer: one sign bit, eight exponent
//! bits, twenty-three fraction bits. Everything the kernel has to know about a
//! scalar (whether it is a number, its sign, how it orders against another
//! scalar) can be read off the encoding with integer arithmetic alone.
use vstd::prelude::*;
use vstd::arithmetic::power2::pow2;
use vstd::arithmetic::power2::lemma2_to64;
use vstd::arithmetic::power2::lemma_pow2_adds;
use vstd::arithmetic::power2::lemma_pow2_pos;
use vstd::arithmetic::power2::lemma_pow2_strictly_increases;
use vstd::arithmetic::power2::lemma_pow2_unfold;

verus! {

/// Encoding of the sign bit: an encoding at or above it carries a minus sign.
pub const SIGN_BIT: u32 = 0x8000_0000;

/// Magnitude shared by the two infinities; every larger magnitude is not a number.
pub const INFINITY_MAGNITUDE: u32 = 0x7f80_0000;

/// Number of fraction patterns in one binade, 2^23.
pub const BINADE: u32 = 0x0080_0000;

/// Encoding of the number one.
pub const ONE_BITS: u32 = 0x3f80_0000;

/// What an encoding stands for.
pub enum Extended {
    /// No number at all; unordered against everything, itself included.
    NotANumber,
    /// Below every finite value.
    NegInfinity,
    /// A finite value, counted in units of 2^-149, the smallest positive binary32.
    Finite(int),
    /// Above every finite value.
    PosInfinity,
}

impl Extended {
    /// The strict order of the extended reals; nothing is below or above `NotANumber`.
    pub open spec fn less_than(self, other: Extended) -> bool {
        match (self, other) {
            (Extended::NotANumber, _) => false,
            (_, Extended::NotANumber) => false,
            (_, Extended::NegInfinity) => false,
            (Extended::NegInfinity, _) => true,
            (Extended::PosInfinity, _) => false,
            (Extended::Finite(_), Extended::PosInfinity) => true,
            (Extended::Finite(a), Extended::Finite(b)) => a < b,
        }
    }

    /// Numerical equality: the two are numbers and neither is below the other.
    pub open spec fn same_value(self, other: Extended) -> bool {
        self == other && !(self is NotANumber)
    }

    /// A finite value above zero.
    pub open spec fn is_positive(self) -> bool {
        self matches Extended::Finite(u) && u > 0
    }

    /// The value of the same size and the opposite sign.
    pub open spec fn negation(self) -> Extended {
        match self {
            Extended::NotANumber => Extended::NotANumber,
            Extended::NegInfinity => Extended::PosInfinity,
            Extended::Finite(u) => Extended::Finite(-u),
            Extended::PosInfinity => Extended::NegInfinity,
        }
    }
}

/// The encoding with its sign bit cleared.
pub open spec fn magnitude_of(bits: u32) -> nat {
    if bits >= SIGN_BIT {
        (bits - SIGN_BIT) as nat
    } else {
        bits as nat
    }
}

/// Value of a finite magnitude in units of 2^-149.
///
/// With exponent field `e` and fraction field `f`, a subnormal (`e == 0`)
/// counts `f` units and a normal one `(2^23 + f) * 2^(e - 1)`.
pub open spec fn units(magnitude: nat) -> nat {
    let exponent = magnitude / (BINADE as nat);
    let fraction = magnitude % (BINADE as nat);
    if exponent == 0 {
        fraction
    } else {
        (BINADE as nat + fraction) * pow2((exponent - 1) as nat)
    }
}

/// A scalar of the simulation, held by its binary32 encoding.
#[derive(Clone, Copy, Debug)]
pub struct Scalar {
    pub bits: u32,
}

impl Scalar {
    /// The encoding that differs from this one in the sign bit alone.
    pub open spec fn opposite(self) -> Scalar {
        if self.bits >= SIGN_BIT {
            Scalar { bits: (self.bits - SIGN_BIT) as u32 }
        } else {
            Scalar { bits: (self.bits + SIGN_BIT) as u32 }
        }
    }
}

impl View for Scalar {
    type V = Extended;

    open spec fn view(&self) -> Extended {
        let magnitude = magnitude_of(self.bits);
        if magnitude > INFINITY_MAGNITUDE {
            Extended::NotANumber
        } else if magnitude == INFINITY_MAGNITUDE {
            if self.bits >= SIGN_BIT {
                Extended::NegInfinity
            } else {
                Extended::PosInfinity
            }
        } else if self.bits >= SIGN_BIT {
            Extended::Finite(-(units(magnitude) as int))
        } else {
            Extended::Finite(units(magnitude) as int)
        }
    }
}

/// What each scalar of a sequence stands for.
pub open spec fn values(scalars: Seq<Scalar>) -> Seq<Extended> {
    Seq::new(scalars.len(), |i: int| scalars[i]@)
}

/// A finite magnitude counts no units exactly when it is zero.
pub proof fn lemma_units_zero(magnitude: nat)
    ensures
        units(magnitude) == 0 <==> magnitude == 0,
{
    let exponent = magnitude / (BINADE as nat);
    let fraction = magnitude % (BINADE as nat);
    if exponent != 0 {
        lemma_pow2_pos((exponent - 1) as nat);
        assert((BINADE as nat + fraction) * pow2((exponent - 1) as nat) > 0) by (nonlinear_arith)
            requires
                BINADE as nat + fraction > 0,
                pow2((exponent - 1) as nat) > 0,
        ;
    }
}

/// Among magnitudes, the larger encoding counts more units: the encodings of
/// the non-negative numbers are ordered as the numbers are.
pub proof fn lemma_units_increasing(a: nat, b: nat)
    requires
        a < b,
    ensures
        units(a) < units(b),
{
    let span = BINADE as nat;
    let (ea, fa) = (a / span, a % span);
    let (eb, fb) = (b / span, b % span);
    assert(ea <= eb);
    if ea == eb {
        if ea != 0 {
            let p = pow2((ea - 1) as nat);
            lemma_pow2_pos((ea - 1) as nat);
            assert((span + fa) * p < (span + fb) * p) by (nonlinear_arith)
                requires
                    fa < fb,
                    p > 0,
            ;
        }
    } else {
        let q = pow2((eb - 1) as nat);
        lemma_pow2_pos((eb - 1) as nat);
        assert(span * q <= (span + fb) * q) by (nonlinear_arith)
            requires
                q > 0,
        ;
        if ea == 0 {
            assert(span <= span * q) by (nonlinear_arith)
                requires
                    q > 0,
            ;
        } else {
            let p = pow2((ea - 1) as nat);
            lemma_pow2_pos((ea - 1) as nat);
            lemma_pow2_unfold(ea);
            if ea < eb - 1 {
                lemma_pow2_strictly_increases(ea, (eb - 1) as nat);
            }
            assert(2 * p <= q);
            assert((span + fa) * p < span * q) by (nonlinear_arith)
                requires
                    fa < span,
                    p > 0,
                    2 * p <= q,
            ;
        }
    }
}

/// Two magnitudes count their units in the order of the encodings, both ways.
pub proof fn lemma_units_order(a: nat, b: nat)
    ensures
        a < b <==> units(a) < units(b),
        a == b <==> units(a) == units(b),
{
    if a < b {
        lemma_units_increasing(a, b);
    }
    if b < a {
        lemma_units_increasing(b, a);
    }
}

/// Changing the sign bit of an encoding negates what it stands for.
pub proof fn lemma_opposite_negates(s: Scalar)
    ensures
        s.opposite()@ == s@.negation(),
        s.opposite().opposite() == s,
{
}

/// `less_than` is a strict order: nothing is below itself, no two values are
/// below each other, and below carries over.
pub proof fn lemma_less_than_is_strict(a: Extended, b: Extended, c: Extended)
    ensures
        !a.less_than(a),
        a.less_than(b) ==> !b.less_than(a),
        a.less_than(b) && b.less_than(c) ==> a.less_than(c),
{
}

/// Any two numbers are comparable: one is below the other, or they are the
/// same value.
pub proof fn lemma_numbers_are_comparable(a: Extended, b: Extended)
    requires
        !(a is NotANumber),
        !(b is NotANumber),
    ensures
        a.less_than(b) || b.less_than(a) || a.same_value(b),
{
}

/// Of two scalars with a plus sign that are numbers, the one with the larger
/// encoding is the larger number.
pub proof fn lemma_encodings_order_numbers(a: Scalar, b: Scalar)
    requires
        a.bits <= INFINITY_MAGNITUDE,
        b.bits <= INFINITY_MAGNITUDE,
    ensures
        a.bits < b.bits <==> a@.less_than(b@),
        a.bits == b.bits <==> a@.same_value(b@),
{
    lemma_units_order(a.bits as nat, b.bits as nat);
}

/// Number of units in the number one, 2^149.
pub open spec fn unit() -> int {
    pow2(149) as int
}

/// The larger of two scalars as the simulation takes it: a scalar that is not
/// a number gives way to the other, and of two equal numbers the first stays.
pub open spec fn larger_of(a: Scalar, b: Scalar) -> Scalar {
    if a@ is NotANumber {
        b
    } else if b@ is NotANumber {
        a
    } else if a@.less_than(b@) {
        b
    } else {
        a
    }
}

/// The larger of two scalars is one of the two, and when both are numbers
/// neither of them is above it.
pub proof fn lemma_larger_of_bounds(a: Scalar, b: Scalar)
    ensures
        larger_of(a, b) == a || larger_of(a, b) == b,
        !(a@ is NotANumber) && !(b@ is NotANumber) ==> !larger_of(a, b)@.less_than(a@)
            && !larger_of(a, b)@.less_than(b@),
        (larger_of(a, b)@ is NotANumber) <==> (a@ is NotANumber) && (b@ is NotANumber),
{
}

impl Scalar {
    /// Takes an encoding as it is; every 32-bit pattern encodes something.
    pub fn from_bits(bits: u32) -> (s: Scalar)
        ensures
            s.bits == bits,
    {
        Scalar { bits }
    }

    /// The encoding.
    pub fn to_bits(&self) -> (bits: u32)
        ensures
            bits == self.bits,
    {
        self.bits
    }

    /// The encoding with its sign bit cleared.
    fn magnitude(&self) -> (m: u32)
        ensures
            m == magnitude_of(self.bits),
    {
        if self.bits >= SIGN_BIT {
            self.bits - SIGN_BIT
        } else {
            self.bits
        }
    }

    /// Whether the scalar is not a number.
    pub fn is_nan(&self) -> (r: bool)
        ensures
            r == (self@ is NotANumber),
    {
        self.magnitude() > INFINITY_MAGNITUDE
    }

    /// Whether the scalar is a finite number.
    pub fn is_finite(&self) -> (r: bool)
        ensures
            r == (self@ is Finite),
    {
        self.magnitude() < INFINITY_MAGNITUDE
    }

    /// Whether the scalar is a finite number above zero.
    pub fn is_positive(&self) -> (r: bool)
        ensures
            r == self@.is_positive(),
    {
        proof {
            lemma_units_zero(magnitude_of(self.bits));
        }
        0 < self.bits && self.bits < INFINITY_MAGNITUDE
    }

    /// Whether the scalar is the number zero, of either sign.
    pub fn is_zero(&self) -> (r: bool)
        ensures
            r == (self@ == Extended::Finite(0)),
    {
        proof {
            lemma_units_zero(magnitude_of(self.bits));
        }
        self.magnitude() == 0
    }

    /// The number one.
    pub fn one() -> (s: Scalar)
        ensures
            s.bits == ONE_BITS,
            s@ == Extended::Finite(unit()),
    {
        proof {
            lemma2_to64();
            lemma_pow2_adds(23, 126);
            assert(magnitude_of(ONE_BITS) / (BINADE as nat) == 127);
            assert(magnitude_of(ONE_BITS) % (BINADE as nat) == 0);
        }
        Scalar { bits: ONE_BITS }
    }

    /// The scalar of the same size and the opposite sign. The step is exact:
    /// it changes the sign bit and nothing else.
    pub fn negated(self) -> (r: Scalar)
        ensures
            r == self.opposite(),
            r@ == self@.negation(),
    {
        if self.bits >= SIGN_BIT {
            Scalar { bits: self.bits - SIGN_BIT }
        } else {
            Scalar { bits: self.bits + SIGN_BIT }
        }
    }

    /// Whether this scalar is strictly below the other; false when either is
    /// not a number.
    pub fn lt(&self, other: &Scalar) -> (r: bool)
        ensures
            r == self@.less_than(other@),
    {
        let a = self.magnitude();
        let b = other.magnitude();
        if a > INFINITY_MAGNITUDE || b > INFINITY_MAGNITUDE {
            return false;
        }
        proof {
            lemma_units_order(a as nat, b as nat);
            lemma_units_zero(a as nat);
            lemma_units_zero(b as nat);
        }
        if self.bits >= SIGN_BIT {
            if other.bits >= SIGN_BIT {
                b < a
            } else {
                a != 0 || b != 0
            }
        } else {
            other.bits < SIGN_BIT && a < b
        }
    }

    /// Whether this scalar is strictly above the other; false when either is
    /// not a number.
    pub fn gt(&self, other: &Scalar) -> (r: bool)
        ensures
            r == other@.less_than(self@),
    {
        other.lt(self)
    }

    /// The larger of this scalar and the other.
    pub fn max(self, other: Scalar) -> (r: Scalar)
        ensures
            r == larger_of(self, other),
    {
        if self.is_nan() {
            other
        } else if other.is_nan() {
            self
        } else if self.lt(&other) {
            other
        } else {
            self
        }
    }
}

} // verus!
