//! The four arithmetic operations on 32-bit signed operands.
//!
//! Addition, subtraction and multiplication are total: a result that does not
//! fit in 32 bits wraps around, modulo 2^32, as two's complement arithmetic
//! does. Every contract is stated over [`wrapped`], which maps a mathematical
//! integer to the one `i32` congruent to it.
//!
//! Division never computes with a zero divisor: [`divide`] either reports
//! [`CalcError::DivisionByZero`] or hands back a [`Quotient`], the exact
//! ratio of its operands, whose divisor is known to be nonzero.

use crate::error::CalcError;
use vstd::prelude::*;

verus! {

/// The `i32` that is congruent to `v` modulo 2^32.
pub open spec fn wrapped(v: int) -> i32 {
    ((v + 0x8000_0000) % 0x1_0000_0000 - 0x8000_0000) as i32
}

/// The sum of `a` and `b`, wrapped to 32 bits.
pub open spec fn sum(a: i32, b: i32) -> i32 {
    wrapped(a + b)
}

/// The difference of `a` and `b`, wrapped to 32 bits.
pub open spec fn difference(a: i32, b: i32) -> i32 {
    wrapped(a - b)
}

/// The product of `a` and `b`, wrapped to 32 bits.
pub open spec fn product(a: i32, b: i32) -> i32 {
    wrapped(a * b)
}

/// The negation of `v`, wrapped to 32 bits: `i32::MIN` is its own negation.
pub open spec fn negated(v: i32) -> i32 {
    wrapped(-v)
}

/// Adds `b` to `a`, wrapping around on overflow.
pub fn add(a: i32, b: i32) -> (r: i32)
    ensures
        r == sum(a, b),
        i32::MIN <= a + b <= i32::MAX ==> r == a + b,
{
    a.wrapping_add(b)
}

/// Subtracts `b` from `a`, wrapping around on overflow.
pub fn subtract(a: i32, b: i32) -> (r: i32)
    ensures
        r == difference(a, b),
        i32::MIN <= a - b <= i32::MAX ==> r == a - b,
{
    a.wrapping_sub(b)
}

/// Multiplies `a` by `b`, wrapping around on overflow.
pub fn multiply(a: i32, b: i32) -> (r: i32)
    ensures
        r == product(a, b),
        i32::MIN <= a * b <= i32::MAX ==> r == a * b,
{
    a.wrapping_mul(b)
}

/// The exact ratio of two integers, the second of which is not zero.
#[derive(Debug, Clone, Copy, PartialEq, Eq)]
pub struct Quotient {
    dividend: i32,
    divisor: i32,
}

impl View for Quotient {
    type V = (int, int);

    /// The dividend and the divisor, in this order.
    closed spec fn view(&self) -> (int, int) {
        (self.dividend as int, self.divisor as int)
    }
}

impl Quotient {
    #[verifier::type_invariant]
    spec fn divisor_is_nonzero(self) -> bool {
        self.divisor != 0
    }

    /// The number that is divided.
    pub fn dividend(&self) -> (r: i32)
        ensures
            r == self@.0,
    {
        self.dividend
    }

    /// The number that divides; never zero.
    pub fn divisor(&self) -> (r: i32)
        ensures
            r == self@.1,
            r != 0,
    {
        proof {
            use_type_invariant(self);
        }
        self.divisor
    }

    /// A quotient is determined by its dividend and its divisor.
    pub proof fn determined_by_view(self, other: Quotient)
        requires
            self@ == other@,
        ensures
            self == other,
    {
    }
}

/// Divides `a` by `b` without rounding: the result is the ratio itself.
///
/// A zero divisor is reported as [`CalcError::DivisionByZero`], and on no
/// other input does the division fail.
pub fn divide(a: i32, b: i32) -> (r: Result<Quotient, CalcError>)
    ensures
        b == 0 ==> r == Err::<Quotient, CalcError>(CalcError::DivisionByZero),
        b != 0 ==> r is Ok && r->Ok_0@ == (a as int, b as int),
{
    if b == 0 {
        return Err(CalcError::DivisionByZero);
    }
    Ok(Quotient { dividend: a, divisor: b })
}

/// Addition commutes, whether or not the sum wraps.
pub proof fn add_commutes(a: i32, b: i32)
    ensures
        sum(a, b) == sum(b, a),
{
}

/// Multiplication commutes, whether or not the product wraps.
pub proof fn multiply_commutes(a: i32, b: i32)
    ensures
        product(a, b) == product(b, a),
{
    assert(a * b == b * a) by (nonlinear_arith);
}

/// Swapping the operands of a subtraction negates the difference.
///
/// With wrapping negation this holds of every pair of operands. As a
/// statement about mathematical integers it holds unless the swapped
/// difference is `i32::MIN`, which has no negation in 32 bits.
pub proof fn subtract_antisymmetric(a: i32, b: i32)
    ensures
        difference(a, b) == negated(difference(b, a)),
        difference(b, a) != i32::MIN ==> difference(a, b) == -difference(b, a),
{
}

} // verus!
