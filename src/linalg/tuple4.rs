//! A four-component tuple that is a point when its `w` is exactly 1.0 and a
//! vector when its `w` is exactly 0.0.
//!
//! Each component is held as the IEEE-754 bit pattern of a double
//! (`f64::to_bits` / `f64::from_bits` convert). On that representation the
//! classification, exact comparison and negation are proved here; the
//! operations that round are left to the caller's floating-point code.
use vstd::prelude::*;

verus! {

/// Bit pattern of the double 1.0.
pub const ONE_BITS: u64 = 0x3FF0_0000_0000_0000;

/// Bit pattern of the double +0.0.
pub const ZERO_BITS: u64 = 0;

/// The sign bit of a double.
pub const SIGN_BIT: u64 = 0x8000_0000_0000_0000;

/// Every bit of a double but its sign.
pub const MAGNITUDE_MASK: u64 = 0x7FFF_FFFF_FFFF_FFFF;

/// Bit pattern of +infinity: all exponent bits set, mantissa zero.
pub const INFINITY_BITS: u64 = 0x7FF0_0000_0000_0000;

/// The double with bit pattern `b` is a NaN: all exponent bits set and a
/// nonzero mantissa.
pub open spec fn is_nan(b: u64) -> bool {
    b & MAGNITUDE_MASK > INFINITY_BITS
}

/// The double with bit pattern `b` is +0.0 or -0.0.
pub open spec fn is_zero(b: u64) -> bool {
    b & MAGNITUDE_MASK == 0
}

/// IEEE-754 equality of the doubles with bit patterns `a` and `b`: a NaN
/// equals nothing, the two zeros equal each other, and otherwise the bit
/// patterns must agree.
pub open spec fn same_value(a: u64, b: u64) -> bool {
    !is_nan(a) && !is_nan(b) && (a == b || (is_zero(a) && is_zero(b)))
}

/// The bit pattern of `-d` for the double `d` with bit pattern `b`: IEEE-754
/// negation flips the sign bit and nothing else, NaNs included.
pub open spec fn negated(b: u64) -> u64 {
    b ^ SIGN_BIT
}

/// 1.0 is neither a NaN nor a zero; +0.0 is a zero and no NaN.
proof fn lemma_one_and_zero()
    ensures
        !is_nan(ONE_BITS),
        !is_zero(ONE_BITS),
        !is_nan(ZERO_BITS),
        is_zero(ZERO_BITS),
{
    assert(0x3FF0_0000_0000_0000u64 & 0x7FFF_FFFF_FFFF_FFFFu64 == 0x3FF0_0000_0000_0000u64)
        by (bit_vector);
    assert(0u64 & 0x7FFF_FFFF_FFFF_FFFFu64 == 0u64) by (bit_vector);
}

/// A point or a vector in homogeneous coordinates, as (x, y, z, w), each
/// component the bit pattern of a double.
#[derive(Clone, Copy, Debug)]
pub struct Tuple4(pub u64, pub u64, pub u64, pub u64);

impl Tuple4 {
    /// The tuple is a point: its `w` equals 1.0.
    pub open spec fn is_point_spec(self) -> bool {
        same_value(self.3, ONE_BITS)
    }

    /// The tuple is a vector: its `w` equals 0.0 (either zero).
    pub open spec fn is_vector_spec(self) -> bool {
        same_value(self.3, ZERO_BITS)
    }

    /// Component-wise IEEE-754 equality.
    pub open spec fn same_as(self, other: Tuple4) -> bool {
        &&& same_value(self.0, other.0)
        &&& same_value(self.1, other.1)
        &&& same_value(self.2, other.2)
        &&& same_value(self.3, other.3)
    }

    /// No component is a NaN.
    pub open spec fn has_no_nan(self) -> bool {
        !is_nan(self.0) && !is_nan(self.1) && !is_nan(self.2) && !is_nan(self.3)
    }

    /// Component-wise negation.
    pub open spec fn negation(self) -> Tuple4 {
        Tuple4(negated(self.0), negated(self.1), negated(self.2), negated(self.3))
    }

    pub fn is_point(&self) -> (r: bool)
        ensures
            r == self.is_point_spec(),
            r == (self.3 == ONE_BITS),
    {
        proof {
            lemma_one_and_zero();
        }
        self.3 == ONE_BITS
    }

    pub fn is_vector(&self) -> (r: bool)
        ensures
            r == self.is_vector_spec(),
            r == (self.3 == ZERO_BITS || self.3 == SIGN_BIT),
    {
        proof {
            lemma_one_and_zero();
            lemma_zero_is_no_nan(self.3);
        }
        self.3 & MAGNITUDE_MASK == 0
    }
}

/// A zero is no NaN, and the only zeros are +0.0 and -0.0.
proof fn lemma_zero_is_no_nan(b: u64)
    ensures
        is_zero(b) ==> !is_nan(b),
        is_zero(b) <==> (b == ZERO_BITS || b == SIGN_BIT),
{
    assert(b & 0x7FFF_FFFF_FFFF_FFFFu64 == 0u64 ==> !(b & 0x7FFF_FFFF_FFFF_FFFFu64
        > 0x7FF0_0000_0000_0000u64)) by (bit_vector);
    assert(b & 0x7FFF_FFFF_FFFF_FFFFu64 == 0u64 <==> (b == 0u64 || b
        == 0x8000_0000_0000_0000u64)) by (bit_vector);
}

/// The point (x, y, z), with `w` = 1.0.
pub fn point(x: u64, y: u64, z: u64) -> (r: Tuple4)
    ensures
        r == Tuple4(x, y, z, ONE_BITS),
        r.is_point_spec(),
        !r.is_vector_spec(),
{
    proof {
        lemma_one_and_zero();
    }
    Tuple4(x, y, z, ONE_BITS)
}

/// The vector (x, y, z), with `w` = 0.0.
pub fn vector(x: u64, y: u64, z: u64) -> (r: Tuple4)
    ensures
        r == Tuple4(x, y, z, ZERO_BITS),
        r.is_vector_spec(),
        !r.is_point_spec(),
{
    proof {
        lemma_one_and_zero();
    }
    Tuple4(x, y, z, ZERO_BITS)
}

impl std::ops::Neg for Tuple4 {
    type Output = Tuple4;

    /// Negates every component. A vector stays a vector; a point becomes a
    /// tuple with `w` = -1.0, neither a point nor a vector.
    fn neg(self) -> (r: Tuple4)
        ensures
            r == self.negation(),
            self.is_vector_spec() ==> r.is_vector_spec(),
            self.is_point_spec() ==> !r.is_point_spec() && !r.is_vector_spec(),
    {
        proof {
            lemma_negated_value(self.3);
            lemma_one_and_zero();
        }
        Tuple4(self.0 ^ SIGN_BIT, self.1 ^ SIGN_BIT, self.2 ^ SIGN_BIT, self.3 ^ SIGN_BIT)
    }
}

impl vstd::std_specs::ops::NegSpecImpl for Tuple4 {
    open spec fn obeys_neg_spec() -> bool {
        true
    }

    open spec fn neg_req(self) -> bool {
        true
    }

    open spec fn neg_spec(self) -> Tuple4 {
        self.negation()
    }
}

/// Negation keeps NaN-ness and zero-ness, is undone by a second negation,
/// and turns 1.0 into a value that is neither 1.0 nor a zero.
proof fn lemma_negated_value(b: u64)
    ensures
        is_nan(negated(b)) == is_nan(b),
        is_zero(negated(b)) == is_zero(b),
        negated(negated(b)) == b,
        b == ONE_BITS ==> negated(b) != ONE_BITS && !is_zero(negated(b)),
{
    assert((b ^ 0x8000_0000_0000_0000u64) & 0x7FFF_FFFF_FFFF_FFFFu64 == b
        & 0x7FFF_FFFF_FFFF_FFFFu64) by (bit_vector);
    assert((b ^ 0x8000_0000_0000_0000u64) ^ 0x8000_0000_0000_0000u64 == b) by (bit_vector);
    assert(b == 0x3FF0_0000_0000_0000u64 ==> (b ^ 0x8000_0000_0000_0000u64)
        != 0x3FF0_0000_0000_0000u64 && (b ^ 0x8000_0000_0000_0000u64)
        & 0x7FFF_FFFF_FFFF_FFFFu64 != 0u64) by (bit_vector);
}

/// Exact equality: each pair of components is equal as doubles, so a NaN
/// component makes a tuple unequal to every tuple, itself included, and
/// +0.0 equals -0.0.
impl PartialEq for Tuple4 {
    fn eq(&self, other: &Tuple4) -> (r: bool)
        ensures
            r == self.same_as(*other),
    {
        components_equal(self.0, other.0) && components_equal(self.1, other.1)
            && components_equal(self.2, other.2) && components_equal(self.3, other.3)
    }
}

impl vstd::std_specs::cmp::PartialEqSpecImpl for Tuple4 {
    open spec fn obeys_eq_spec() -> bool {
        true
    }

    open spec fn eq_spec(&self, other: &Tuple4) -> bool {
        self.same_as(*other)
    }
}

/// IEEE-754 equality of two doubles given by their bit patterns.
fn components_equal(a: u64, b: u64) -> (r: bool)
    ensures
        r == same_value(a, b),
{
    let a_mag = a & MAGNITUDE_MASK;
    let b_mag = b & MAGNITUDE_MASK;
    a_mag <= INFINITY_BITS && b_mag <= INFINITY_BITS && (a == b || (a_mag == 0 && b_mag == 0))
}

/// The tuple (0.0, 0.0, 0.0, 0.0). Its `w` is 0.0, so it is a vector.
impl Default for Tuple4 {
    fn default() -> (r: Tuple4)
        ensures
            r == Tuple4(ZERO_BITS, ZERO_BITS, ZERO_BITS, ZERO_BITS),
            r.is_vector_spec(),
    {
        proof {
            lemma_one_and_zero();
        }
        Tuple4(ZERO_BITS, ZERO_BITS, ZERO_BITS, ZERO_BITS)
    }
}

/// A point built from any components is a point and no vector; a vector
/// built from any components is a vector and no point.
pub proof fn lemma_constructors_classify(x: u64, y: u64, z: u64)
    ensures
        Tuple4(x, y, z, ONE_BITS).is_point_spec(),
        !Tuple4(x, y, z, ONE_BITS).is_vector_spec(),
        Tuple4(x, y, z, ZERO_BITS).is_vector_spec(),
        !Tuple4(x, y, z, ZERO_BITS).is_point_spec(),
{
    lemma_one_and_zero();
}

/// Negating twice gives back the same tuple, bit for bit; when no component
/// is a NaN, the result is also exactly equal to the original.
pub proof fn lemma_double_negation(t: Tuple4)
    ensures
        t.negation().negation() == t,
        t.has_no_nan() ==> t.negation().negation().same_as(t),
{
    lemma_negated_value(t.0);
    lemma_negated_value(t.1);
    lemma_negated_value(t.2);
    lemma_negated_value(t.3);
}

} // verus!
