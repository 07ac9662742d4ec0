//! Escape-time evaluation of the quadratic recurrence `z -> z * z + c`.

use vstd::prelude::*;
use crate::plane::Complex;
use crate::scalar::{at_most, converts, difference, product, sum, Scalar};

verus! {

/// The budget of steps that the viewer works with unless told otherwise.
pub const DEFAULT_MAX_ITERATIONS: u32 = 2000;

/// The squared escape radius that the viewer works with unless told
/// otherwise.
pub const DEFAULT_ESCAPE_TARGET: u32 = 4;

/// What bounds the evaluation of a point: the budget of steps, and the
/// squared radius beyond which a point counts as escaped.
#[derive(Debug)]
pub struct Settings<T> {
    pub max_iterations: u32,
    pub escape_target: T,
}

impl<T: Copy> Clone for Settings<T> {
    fn clone(&self) -> (copy: Self)
        ensures
            copy == *self,
    {
        *self
    }
}

impl<T: Copy> Copy for Settings<T> {

}

impl<T: Scalar> Default for Settings<T> {
    /// The settings that the viewer works with unless told otherwise.
    fn default() -> (settings: Self)
        ensures
            settings.max_iterations == DEFAULT_MAX_ITERATIONS,
            converts(DEFAULT_ESCAPE_TARGET, settings.escape_target),
    {
        Settings {
            max_iterations: DEFAULT_MAX_ITERATIONS,
            escape_target: T::from_u32(DEFAULT_ESCAPE_TARGET),
        }
    }
}

/// `verdict` may be the answer to whether `z` lies within the escape bound:
/// whether `re * re + im * im <= escape_target`.
pub open spec fn within_bound<T: Scalar>(z: Complex<T>, escape_target: T, verdict: bool) -> bool {
    exists|real_sq: T, imag_sq: T, norm: T|
        {
            &&& product(z.real, z.real, real_sq)
            &&& product(z.imaginary, z.imaginary, imag_sq)
            &&& sum(real_sq, imag_sq, norm)
            &&& at_most(norm, escape_target, verdict)
        }
}

/// `r` may be the real part of the point after `z` on the orbit of `c`:
/// `re * re - im * im + c.real`, computed from left to right.
pub open spec fn real_steps_to<T: Scalar>(z: Complex<T>, c: Complex<T>, r: T) -> bool {
    exists|real_sq: T, imag_sq: T, diff: T|
        {
            &&& product(z.real, z.real, real_sq)
            &&& product(z.imaginary, z.imaginary, imag_sq)
            &&& #[trigger] difference(real_sq, imag_sq, diff)
            &&& sum(diff, c.real, r)
        }
}

/// `r` may be the imaginary part of the point after `z` on the orbit of `c`:
/// `2 * re * im + c.imaginary`, computed from left to right.
pub open spec fn imaginary_steps_to<T: Scalar>(z: Complex<T>, c: Complex<T>, r: T) -> bool {
    exists|two: T, twice: T, cross: T|
        #![trigger product(two, z.real, twice), product(twice, z.imaginary, cross)]
        {
            &&& converts(2, two)
            &&& product(two, z.real, twice)
            &&& product(twice, z.imaginary, cross)
            &&& sum(cross, c.imaginary, r)
        }
}

/// `next` may be the point after `z` on the orbit of `c`, that is
/// `z * z + c`.
pub open spec fn steps_to<T: Scalar>(z: Complex<T>, c: Complex<T>, next: Complex<T>) -> bool {
    real_steps_to(z, c, next.real) && imaginary_steps_to(z, c, next.imaginary)
}

/// `orbit` may be a run of the recurrence for `c`: it starts at zero, and
/// each of its points but the last was found within the escape bound and
/// steps to the one after it.
pub open spec fn is_orbit<T: Scalar>(c: Complex<T>, escape_target: T, orbit: Seq<Complex<T>>) -> bool {
    &&& orbit.len() > 0
    &&& converts(0, orbit[0].real)
    &&& converts(0, orbit[0].imaginary)
    &&& forall|i: int|
        0 <= i < orbit.len() - 1 ==> {
            &&& within_bound(#[trigger] orbit[i], escape_target, true)
            &&& steps_to(orbit[i], c, orbit[i + 1])
        }
}

/// `iterations` may be the escape time of `c`: the number of steps of a run
/// that ended because the budget `max_iterations` was used up or because its
/// last point was found outside the escape bound, whichever came first.
pub open spec fn escapes_after<T: Scalar>(
    c: Complex<T>,
    escape_target: T,
    max_iterations: u32,
    iterations: u32,
) -> bool {
    &&& iterations <= max_iterations
    &&& exists|orbit: Seq<Complex<T>>|
        {
            &&& #[trigger] is_orbit(c, escape_target, orbit)
            &&& orbit.len() == iterations + 1
            &&& iterations < max_iterations ==> within_bound(
                orbit[iterations as int],
                escape_target,
                false,
            )
        }
}

/// What zero must be to the arithmetic for the orbit of zero to rest: `zero`
/// is the one number that stands for 0; squaring it, doubling it, adding it
/// to itself and taking it from itself give `zero` again; and it is found to
/// be at most `escape_target`.
pub open spec fn zero_rests<T: Scalar>(zero: T, escape_target: T) -> bool {
    &&& forall|r: T| #[trigger] converts(0, r) ==> r == zero
    &&& forall|r: T| #[trigger] product(zero, zero, r) ==> r == zero
    &&& forall|r: T| #[trigger] sum(zero, zero, r) ==> r == zero
    &&& forall|r: T| #[trigger] difference(zero, zero, r) ==> r == zero
    &&& forall|two: T, r: T| converts(2, two) && #[trigger] product(two, zero, r) ==> r == zero
    &&& forall|verdict: bool| #[trigger] at_most(zero, escape_target, verdict) ==> verdict
}

/// Under `zero_rests`, every point on an orbit of zero is zero.
proof fn lemma_orbit_of_zero_rests<T: Scalar>(
    c: Complex<T>,
    escape_target: T,
    orbit: Seq<Complex<T>>,
    i: int,
)
    requires
        c.imaginary == c.real,
        zero_rests(c.real, escape_target),
        is_orbit(c, escape_target, orbit),
        0 <= i < orbit.len(),
    ensures
        orbit[i] == c,
    decreases i,
{
    if i > 0 {
        lemma_orbit_of_zero_rests(c, escape_target, orbit, i - 1);
        assert(steps_to(orbit[i - 1], c, orbit[i]));
    }
}

/// The point zero never escapes: whatever the budget, its escape time is the
/// whole budget, provided that zero rests under the arithmetic.
pub proof fn lemma_zero_never_escapes<T: Scalar>(
    c: Complex<T>,
    escape_target: T,
    max_iterations: u32,
    iterations: u32,
)
    requires
        c.imaginary == c.real,
        zero_rests(c.real, escape_target),
        escapes_after(c, escape_target, max_iterations, iterations),
    ensures
        iterations == max_iterations,
{
    let orbit = choose|orbit: Seq<Complex<T>>|
        {
            &&& #[trigger] is_orbit(c, escape_target, orbit)
            &&& orbit.len() == iterations + 1
            &&& iterations < max_iterations ==> within_bound(
                orbit[iterations as int],
                escape_target,
                false,
            )
        };
    lemma_orbit_of_zero_rests(c, escape_target, orbit, iterations as int);
}

/// Tells whether `z` lies within the escape bound.
pub fn is_within_bound<T: Scalar>(z: &Complex<T>, escape_target: T) -> (verdict: bool)
    ensures
        within_bound(*z, escape_target, verdict),
{
    let real_sq: T = z.real.mul(z.real);
    let imag_sq: T = z.imaginary.mul(z.imaginary);
    let norm: T = real_sq.add(imag_sq);
    let verdict: bool = norm.le(escape_target);
    assert(product(z.real, z.real, real_sq) && product(z.imaginary, z.imaginary, imag_sq) && sum(
        real_sq,
        imag_sq,
        norm,
    ) && at_most(norm, escape_target, verdict));
    verdict
}

/// Takes one step of the recurrence: `z * z + c`.
pub fn step<T: Scalar>(z: &Complex<T>, c: &Complex<T>) -> (next: Complex<T>)
    ensures
        steps_to(*z, *c, next),
{
    let real_sq: T = z.real.mul(z.real);
    let imag_sq: T = z.imaginary.mul(z.imaginary);
    let diff: T = real_sq.sub(imag_sq);
    let two: T = T::from_u32(2);
    let twice: T = two.mul(z.real);
    let cross: T = twice.mul(z.imaginary);
    let next = Complex { real: diff.add(c.real), imaginary: cross.add(c.imaginary) };
    assert(product(z.real, z.real, real_sq) && product(z.imaginary, z.imaginary, imag_sq)
        && difference(real_sq, imag_sq, diff) && sum(diff, c.real, next.real));
    assert(converts(2, two) && product(two, z.real, twice) && product(twice, z.imaginary, cross)
        && sum(cross, c.imaginary, next.imaginary));
    next
}

/// The escape time of `c`: starting from zero, the recurrence is stepped as
/// long as fewer than `max_iterations` steps were taken and the current point
/// lies within the escape bound. The result is `max_iterations` when the
/// budget ran out, which marks `c` as a point of the set.
pub fn is_in_mandelbrot_set<T: Scalar>(c: &Complex<T>, escape_target: T, max_iterations: u32) -> (iterations: u32)
    ensures
        iterations <= max_iterations,
        escapes_after(*c, escape_target, max_iterations, iterations),
{
    let mut iterations: u32 = 0;
    let mut z = Complex { real: T::from_u32(0), imaginary: T::from_u32(0) };
    let ghost mut orbit: Seq<Complex<T>> = seq![z];
    while iterations < max_iterations && is_within_bound(&z, escape_target)
        invariant
            iterations <= max_iterations,
            orbit.len() == iterations + 1,
            orbit[iterations as int] == z,
            is_orbit(*c, escape_target, orbit),
        ensures
            iterations <= max_iterations,
            orbit.len() == iterations + 1,
            is_orbit(*c, escape_target, orbit),
            iterations < max_iterations ==> within_bound(orbit[iterations as int], escape_target, false),
        decreases max_iterations - iterations,
    {
        let next = step(&z, c);
        proof {
            orbit = orbit.push(next);
        }
        z = next;
        iterations = iterations + 1;
    }
    iterations
}

} // verus!
