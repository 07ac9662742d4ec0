//! The number type of the viewer, and what the library knows of it.
//!
//! The library computes with whatever number type the embedding program
//! hands it, such as an IEEE double. It assumes nothing of that arithmetic:
//! not that it is exact, not even that an operation gives the same result
//! twice. Contracts therefore speak of arithmetic through relations: `sum(a,
//! b, r)` holds when `r` is a value that `a.add(b)` may return.

use vstd::prelude::*;

verus! {

/// A number type with the operations the viewer needs.
///
/// Every operation must return for every argument: the library calls them
/// on whatever values arise, and promises to return itself.
pub trait Scalar: Copy {
    /// The number that stands for the unsigned integer `value`.
    fn from_u32(value: u32) -> Self;

    /// `self + rhs`.
    fn add(self, rhs: Self) -> Self;

    /// `self - rhs`.
    fn sub(self, rhs: Self) -> Self;

    /// `self * rhs`.
    fn mul(self, rhs: Self) -> Self;

    /// `self / rhs`, for every divisor, zero included.
    fn div(self, rhs: Self) -> Self;

    /// `-self`.
    fn neg(self) -> Self;

    /// The square root of `self`.
    fn sqrt(self) -> Self;

    /// Whether `self <= rhs`.
    fn le(self, rhs: Self) -> bool;

    /// The integer part of `self`: the fraction is dropped, not rounded.
    fn to_i64(self) -> i64;
}

/// `r` may stand for the integer `n`.
pub open spec fn converts<T: Scalar>(n: u32, r: T) -> bool {
    call_ensures(T::from_u32, (n,), r)
}

/// `r` may be the result of `a + b`.
pub open spec fn sum<T: Scalar>(a: T, b: T, r: T) -> bool {
    call_ensures(T::add, (a, b), r)
}

/// `r` may be the result of `a - b`.
pub open spec fn difference<T: Scalar>(a: T, b: T, r: T) -> bool {
    call_ensures(T::sub, (a, b), r)
}

/// `r` may be the result of `a * b`.
pub open spec fn product<T: Scalar>(a: T, b: T, r: T) -> bool {
    call_ensures(T::mul, (a, b), r)
}

/// `r` may be the result of `a / b`.
pub open spec fn quotient<T: Scalar>(a: T, b: T, r: T) -> bool {
    call_ensures(T::div, (a, b), r)
}

/// `r` may be the result of `-a`.
pub open spec fn negation<T: Scalar>(a: T, r: T) -> bool {
    call_ensures(T::neg, (a,), r)
}

/// `r` may be the square root computed for `a`.
pub open spec fn square_root<T: Scalar>(a: T, r: T) -> bool {
    call_ensures(T::sqrt, (a,), r)
}

/// `verdict` may be the answer to `a <= b`.
pub open spec fn at_most<T: Scalar>(a: T, b: T, verdict: bool) -> bool {
    call_ensures(T::le, (a, b), verdict)
}

/// `n` may be the integer part computed for `a`.
pub open spec fn integer_part<T: Scalar>(a: T, n: i64) -> bool {
    call_ensures(T::to_i64, (a,), n)
}

/// `r` may be the result of dividing the number for `numerator` by the
/// number for `denominator`.
pub open spec fn ratio<T: Scalar>(numerator: u32, denominator: u32, r: T) -> bool {
    exists|n: T, d: T| converts(numerator, n) && converts(denominator, d) && quotient(n, d, r)
}

/// Divides the number for `numerator` by the number for `denominator`.
pub fn ratio_of<T: Scalar>(numerator: u32, denominator: u32) -> (r: T)
    ensures
        ratio(numerator, denominator, r),
{
    let n: T = T::from_u32(numerator);
    let d: T = T::from_u32(denominator);
    let r: T = n.div(d);
    assert(converts(numerator, n) && converts(denominator, d) && quotient(n, d, r));
    r
}

} // verus!
