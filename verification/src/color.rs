//! Colours, and the colour of an escape time.

use vstd::prelude::*;
use crate::scalar::{
    converts,
    difference,
    product,
    quotient,
    integer_part,
    square_root,
    sum,
    Scalar,
};

verus! {

/// A colour of three 8-bit channels.
#[derive(Clone, Copy, Debug, PartialEq, Eq, Structural)]
pub struct Color {
    pub r: u8,
    pub g: u8,
    pub b: u8,
}

impl Color {
    /// Black, the colour of the points that never escaped.
    pub open spec fn spec_black() -> Color {
        Color { r: 0, g: 0, b: 0 }
    }

    /// Black, the colour of the points that never escaped.
    #[verifier::when_used_as_spec(spec_black)]
    pub fn black() -> (color: Color)
        ensures
            color == Self::spec_black(),
    {
        Color { r: 0, g: 0, b: 0 }
    }
}

/// The value that scales the squared brightness into the red channel.
pub const RED_SCALE: u32 = 6502;

/// The highest level of a channel.
pub const FULL: u32 = 255;

/// `r` may be `val` carried from the range `in_min..in_max` to the range
/// `out_min..out_max`:
/// `(val - in_min) * (out_max - out_min) / (in_max - in_min) + out_min`,
/// computed from left to right.
pub open spec fn linear_map<T: Scalar>(val: T, in_min: T, in_max: T, out_min: T, out_max: T, r: T) -> bool {
    exists|shifted: T, out_span: T, scaled: T, in_span: T, carried: T|
        #![trigger product(shifted, out_span, scaled), quotient(scaled, in_span, carried)]
        {
            &&& difference(val, in_min, shifted)
            &&& difference(out_max, out_min, out_span)
            &&& product(shifted, out_span, scaled)
            &&& difference(in_max, in_min, in_span)
            &&& quotient(scaled, in_span, carried)
            &&& sum(carried, out_min, r)
        }
}

/// `bright` may be the brightness of an escape time: `iterations` carried
/// from `0..max_iterations` to `0..255`.
pub open spec fn brightness<T: Scalar>(iterations: u32, max_iterations: u32, bright: T) -> bool {
    exists|count: T, zero: T, budget: T, full: T|
        {
            &&& converts(iterations, count)
            &&& converts(0, zero)
            &&& converts(max_iterations, budget)
            &&& converts(FULL, full)
            &&& #[trigger] linear_map(count, zero, budget, zero, full, bright)
        }
}

/// `red` may be the red level for a brightness: its square, carried from
/// `0..6502` to `0..255`. Nothing keeps it below 255.
pub open spec fn red_level<T: Scalar>(bright: T, red: T) -> bool {
    exists|squared: T, zero: T, scale: T, full: T|
        {
            &&& product(bright, bright, squared)
            &&& converts(0, zero)
            &&& converts(RED_SCALE, scale)
            &&& converts(FULL, full)
            &&& #[trigger] linear_map(squared, zero, scale, zero, full, red)
        }
}

/// `blue` may be the blue level for a brightness: its square root, carried
/// from `0..sqrt(255)` to `0..255`.
pub open spec fn blue_level<T: Scalar>(bright: T, blue: T) -> bool {
    exists|root: T, zero: T, full: T, full_root: T|
        {
            &&& square_root(bright, root)
            &&& converts(0, zero)
            &&& converts(FULL, full)
            &&& square_root(full, full_root)
            &&& #[trigger] linear_map(root, zero, full_root, zero, full, blue)
        }
}

/// The channel that an integer level wraps to: what is left of it modulo
/// 256. A level above 255 is not held at 255.
pub open spec fn wrapped(level: i64) -> u8 {
    (level as int % 256) as u8
}

/// `channel` may be the channel for `level`: its integer part, wrapped.
pub open spec fn channel_of<T: Scalar>(level: T, channel: u8) -> bool {
    exists|whole: i64| #[trigger] integer_part(level, whole) && channel == wrapped(whole)
}

/// `color` may be the colour of a point that escaped after `iterations`
/// steps: green is the brightness, red and blue derive from it, and each
/// level is cut down to a channel.
pub open spec fn escaped_color<T: Scalar>(iterations: u32, max_iterations: u32, color: Color) -> bool {
    exists|bright: T, red: T, blue: T|
        #![trigger red_level(bright, red), blue_level(bright, blue)]
        {
            &&& brightness(iterations, max_iterations, bright)
            &&& red_level(bright, red)
            &&& blue_level(bright, blue)
            &&& channel_of(red, color.r)
            &&& channel_of(bright, color.g)
            &&& channel_of(blue, color.b)
        }
}

/// `color` may be the colour of an escape time: black for a point that used
/// up its budget of `max_iterations` steps, else a colour of the gradient.
pub open spec fn colors<T: Scalar>(iterations: u32, max_iterations: u32, color: Color) -> bool {
    if iterations == max_iterations {
        color == Color::black()
    } else {
        escaped_color::<T>(iterations, max_iterations, color)
    }
}

/// `in_max` may be the upper end of a range that the gradient carries a
/// level from: the number for the budget, the number that scales the red
/// level, or the square root of the number for the highest level.
pub open spec fn ends_a_range<T: Scalar>(max_iterations: u32, in_max: T) -> bool {
    ||| converts(max_iterations, in_max)
    ||| converts(RED_SCALE, in_max)
    ||| exists|full: T| converts(FULL, full) && #[trigger] square_root(full, in_max)
}

/// What zero must be to the arithmetic for the gradient to fade to black at
/// it: `zero` is the one number that stands for 0; squaring it, taking its
/// square root, adding it to itself and taking it from itself give `zero`
/// again; so do multiplying it by the width of the range of levels and
/// dividing it by the width of each range that the gradient carries a level
/// from; and its integer part is 0.
pub open spec fn zero_fades<T: Scalar>(zero: T, max_iterations: u32) -> bool {
    &&& forall|r: T| #[trigger] converts(0, r) ==> r == zero
    &&& forall|r: T| #[trigger] product(zero, zero, r) ==> r == zero
    &&& forall|r: T| #[trigger] square_root(zero, r) ==> r == zero
    &&& forall|r: T| #[trigger] sum(zero, zero, r) ==> r == zero
    &&& forall|r: T| #[trigger] difference(zero, zero, r) ==> r == zero
    &&& forall|full: T, span: T, r: T|
        #![trigger difference(full, zero, span), product(zero, span, r)]
        converts(FULL, full) && difference(full, zero, span) && product(zero, span, r) ==> r == zero
    &&& forall|in_max: T, span: T, r: T|
        #![trigger difference(in_max, zero, span), quotient(zero, span, r)]
        ends_a_range(max_iterations, in_max) && difference(in_max, zero, span) && quotient(
            zero,
            span,
            r,
        ) ==> r == zero
    &&& forall|whole: i64| #[trigger] integer_part(zero, whole) ==> whole == 0
}

/// Under `zero_fades`, zero is carried to zero from each range that the
/// gradient carries a level from.
proof fn lemma_zero_is_carried_to_zero<T: Scalar>(
    zero: T,
    max_iterations: u32,
    in_max: T,
    full: T,
    r: T,
)
    requires
        zero_fades(zero, max_iterations),
        ends_a_range(max_iterations, in_max),
        converts(FULL, full),
        linear_map(zero, zero, in_max, zero, full, r),
    ensures
        r == zero,
{
}

/// A point that escaped before the first step is black, like the points of
/// the set: an escape time of 0 gets the colour black whatever the budget,
/// provided that zero fades under the arithmetic.
pub proof fn lemma_no_iterations_give_black<T: Scalar>(zero: T, max_iterations: u32, color: Color)
    requires
        zero_fades(zero, max_iterations),
        colors::<T>(0, max_iterations, color),
    ensures
        color == Color::black(),
{
    if max_iterations != 0 {
        let (bright, red, blue) = choose|bright: T, red: T, blue: T|
            #![trigger red_level(bright, red), blue_level(bright, blue)]
            {
                &&& brightness(0, max_iterations, bright)
                &&& red_level(bright, red)
                &&& blue_level(bright, blue)
                &&& channel_of(red, color.r)
                &&& channel_of(bright, color.g)
                &&& channel_of(blue, color.b)
            };
        assert(bright == zero) by {
            let (count, none, budget, full) = choose|count: T, none: T, budget: T, full: T|
                {
                    &&& converts(0, count)
                    &&& converts(0, none)
                    &&& converts(max_iterations, budget)
                    &&& converts(FULL, full)
                    &&& #[trigger] linear_map(count, none, budget, none, full, bright)
                };
            lemma_zero_is_carried_to_zero(zero, max_iterations, budget, full, bright);
        }
        assert(red == zero) by {
            let (squared, none, scale, full) = choose|squared: T, none: T, scale: T, full: T|
                {
                    &&& product(bright, bright, squared)
                    &&& converts(0, none)
                    &&& converts(RED_SCALE, scale)
                    &&& converts(FULL, full)
                    &&& #[trigger] linear_map(squared, none, scale, none, full, red)
                };
            lemma_zero_is_carried_to_zero(zero, max_iterations, scale, full, red);
        }
        assert(blue == zero) by {
            let (root, none, full, full_root) = choose|root: T, none: T, full: T, full_root: T|
                {
                    &&& square_root(bright, root)
                    &&& converts(0, none)
                    &&& converts(FULL, full)
                    &&& square_root(full, full_root)
                    &&& #[trigger] linear_map(root, none, full_root, none, full, blue)
                };
            lemma_zero_is_carried_to_zero(zero, max_iterations, full_root, full, blue);
        }
        assert(wrapped(0) == 0);
    }
}

/// Carries `val` from the range `in_min..in_max` to the range
/// `out_min..out_max`.
pub fn map_color<T: Scalar>(val: T, in_min: T, in_max: T, out_min: T, out_max: T) -> (r: T)
    ensures
        linear_map(val, in_min, in_max, out_min, out_max, r),
{
    let shifted: T = val.sub(in_min);
    let out_span: T = out_max.sub(out_min);
    let scaled: T = shifted.mul(out_span);
    let in_span: T = in_max.sub(in_min);
    let carried: T = scaled.div(in_span);
    let r: T = carried.add(out_min);
    assert(difference(val, in_min, shifted) && difference(out_max, out_min, out_span) && product(
        shifted,
        out_span,
        scaled,
    ) && difference(in_max, in_min, in_span) && quotient(scaled, in_span, carried) && sum(
        carried,
        out_min,
        r,
    ));
    r
}

/// Wraps an integer level to a channel.
pub fn wrap(level: i64) -> (channel: u8)
    ensures
        channel == wrapped(level),
{
    if level >= 0 {
        (level % 256) as u8
    } else {
        let below: i64 = -(level + 1);
        (255 - below % 256) as u8
    }
}

/// Cuts `level` down to a channel: takes its integer part and wraps it.
pub fn to_channel<T: Scalar>(level: T) -> (channel: u8)
    ensures
        channel_of(level, channel),
{
    let whole: i64 = level.to_i64();
    let channel: u8 = wrap(whole);
    assert(integer_part(level, whole) && channel == wrapped(whole));
    channel
}

/// The colour of a point that escaped after `iterations` of at most
/// `max_iterations` steps.
pub fn gradient<T: Scalar>(iterations: u32, max_iterations: u32) -> (color: Color)
    ensures
        escaped_color::<T>(iterations, max_iterations, color),
{
    let zero: T = T::from_u32(0);
    let full: T = T::from_u32(FULL);
    let count: T = T::from_u32(iterations);
    let budget: T = T::from_u32(max_iterations);
    let bright: T = map_color(count, zero, budget, zero, full);
    assert(brightness(iterations, max_iterations, bright)) by {
        assert(converts(iterations, count) && converts(0, zero) && converts(max_iterations, budget)
            && converts(FULL, full) && linear_map(count, zero, budget, zero, full, bright));
    }
    let squared: T = bright.mul(bright);
    let scale: T = T::from_u32(RED_SCALE);
    let red: T = map_color(squared, zero, scale, zero, full);
    assert(red_level(bright, red)) by {
        assert(product(bright, bright, squared) && converts(0, zero) && converts(RED_SCALE, scale)
            && converts(FULL, full) && linear_map(squared, zero, scale, zero, full, red));
    }
    let root: T = bright.sqrt();
    let full_root: T = full.sqrt();
    let blue: T = map_color(root, zero, full_root, zero, full);
    assert(blue_level(bright, blue)) by {
        assert(square_root(bright, root) && converts(0, zero) && converts(FULL, full)
            && square_root(full, full_root) && linear_map(root, zero, full_root, zero, full, blue));
    }
    let color = Color { r: to_channel(red), g: to_channel(bright), b: to_channel(blue) };
    assert(channel_of(red, color.r) && channel_of(bright, color.g) && channel_of(blue, color.b));
    color
}

/// The colour of an escape time: black for a point that used up its budget
/// of `max_iterations` steps, the gradient's colour for one that escaped.
pub fn color_for<T: Scalar>(iterations: u32, max_iterations: u32) -> (color: Color)
    ensures
        colors::<T>(iterations, max_iterations, color),
        iterations == max_iterations ==> color == Color::black(),
{
    if iterations == max_iterations {
        Color::black()
    } else {
        gradient::<T>(iterations, max_iterations)
    }
}

} // verus!
