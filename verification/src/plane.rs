//! Pixels, points of the complex plane, and the mapping from one to the
//! other through a viewport.

use vstd::prelude::*;
use crate::scalar::{difference, product, ratio, ratio_of, sum, Scalar};
use crate::viewport::Viewport;

verus! {

/// A point of the complex plane.
#[derive(Debug)]
pub struct Complex<T> {
    pub real: T,
    pub imaginary: T,
}

impl<T: Copy> Clone for Complex<T> {
    fn clone(&self) -> (copy: Self)
        ensures
            copy == *self,
    {
        *self
    }
}

impl<T: Copy> Copy for Complex<T> {

}

/// A pixel of the frame, counted from its top left corner.
#[derive(Clone, Copy, Debug, PartialEq, Eq, Structural)]
pub struct Pixel {
    pub x: u32,
    pub y: u32,
}

/// `r` may be what one axis maps `pixel` to:
/// `min + (max - min) * (pixel / axis_size)`, computed in this order.
pub open spec fn maps_component<T: Scalar>(pixel: u32, axis_size: u32, min: T, max: T, r: T) -> bool {
    exists|pix_ratio: T, span: T, offset: T|
        {
            &&& ratio(pixel, axis_size, pix_ratio)
            &&& difference(max, min, span)
            &&& product(span, pix_ratio, offset)
            &&& sum(min, offset, r)
        }
}

/// `c` may be the point that `pixel` maps to in a frame of `width` by
/// `height` pixels: each axis is mapped on its own, between the zoomed bounds
/// of `viewport`.
pub open spec fn maps_pixel<T: Scalar>(
    pixel: Pixel,
    width: u32,
    height: u32,
    viewport: Viewport<T>,
    c: Complex<T>,
) -> bool {
    exists|real_lo: T, real_hi: T, imag_lo: T, imag_hi: T|
        {
            &&& product(viewport.zoom, viewport.real_min, real_lo)
            &&& product(viewport.zoom, viewport.real_max, real_hi)
            &&& product(viewport.zoom, viewport.imag_min, imag_lo)
            &&& product(viewport.zoom, viewport.imag_max, imag_hi)
            &&& maps_component(pixel.x, width, real_lo, real_hi, c.real)
            &&& maps_component(pixel.y, height, imag_lo, imag_hi, c.imaginary)
        }
}

/// Maps one coordinate of a pixel to the plane, between the bounds
/// `complex_min` (at pixel 0) and `complex_max` (at pixel `pix_max`).
pub fn convert_component_to_complex<T: Scalar>(
    pixel: u32,
    pix_max: u32,
    complex_min: T,
    complex_max: T,
) -> (r: T)
    ensures
        maps_component(pixel, pix_max, complex_min, complex_max, r),
{
    let pix_ratio: T = ratio_of(pixel, pix_max);
    let span: T = complex_max.sub(complex_min);
    let offset: T = span.mul(pix_ratio);
    let r: T = complex_min.add(offset);
    assert(ratio(pixel, pix_max, pix_ratio) && difference(complex_max, complex_min, span)
        && product(span, pix_ratio, offset) && sum(complex_min, offset, r));
    r
}

/// Maps a pixel of a frame of `pix_width` by `pix_height` pixels to the point
/// of the plane that `viewport` shows there.
pub fn convert_pixel_to_complex<T: Scalar>(
    pixel: Pixel,
    pix_width: u32,
    pix_height: u32,
    viewport: &Viewport<T>,
) -> (c: Complex<T>)
    ensures
        maps_pixel(pixel, pix_width, pix_height, *viewport, c),
{
    let real_lo: T = viewport.zoomed_real_min();
    let real_hi: T = viewport.zoomed_real_max();
    let imag_lo: T = viewport.zoomed_imag_min();
    let imag_hi: T = viewport.zoomed_imag_max();
    let c = Complex {
        real: convert_component_to_complex(pixel.x, pix_width, real_lo, real_hi),
        imaginary: convert_component_to_complex(pixel.y, pix_height, imag_lo, imag_hi),
    };
    assert(product(viewport.zoom, viewport.real_min, real_lo) && product(
        viewport.zoom,
        viewport.real_max,
        real_hi,
    ) && product(viewport.zoom, viewport.imag_min, imag_lo) && product(
        viewport.zoom,
        viewport.imag_max,
        imag_hi,
    ) && maps_component(pixel.x, pix_width, real_lo, real_hi, c.real) && maps_component(
        pixel.y,
        pix_height,
        imag_lo,
        imag_hi,
        c.imaginary,
    ));
    c
}

} // verus!
