//! A frame of pixels, and the rendering of the set into it.

use vstd::prelude::*;
use vstd::arithmetic::div_mod::lemma_fundamental_div_mod_converse;
use vstd::arithmetic::mul::lemma_mul_inequality;
use crate::color::{color_for, colors, Color};
use crate::escape::{escapes_after, is_in_mandelbrot_set, Settings};
use crate::plane::{convert_pixel_to_complex, maps_pixel, Complex, Pixel};
use crate::scalar::Scalar;
use crate::viewport::Viewport;

verus! {

/// The width in pixels of the frame that the viewer opens with.
pub const DEFAULT_WIDTH: u32 = 800;

/// The height in pixels of the frame that the viewer opens with.
pub const DEFAULT_HEIGHT: u32 = 600;

/// The place of `pixel` in a frame of rows of `width` pixels, the rows one
/// after the other from the top.
pub open spec fn index_of(width: u32, pixel: Pixel) -> int {
    pixel.y * width + pixel.x
}

/// The pixel at place `index` of a frame of rows of `width` pixels.
pub open spec fn pixel_at(width: u32, index: int) -> Pixel {
    Pixel { x: (index % (width as int)) as u32, y: (index / (width as int)) as u32 }
}

/// Every pixel of a frame has a place of its own within the frame, and is
/// the pixel found at that place.
pub proof fn lemma_pixel_has_its_place(width: u32, height: u32, pixel: Pixel)
    requires
        pixel.x < width,
        pixel.y < height,
    ensures
        0 <= index_of(width, pixel) < width * height,
        pixel_at(width, index_of(width, pixel)) == pixel,
{
    let w = width as int;
    let x = pixel.x as int;
    let y = pixel.y as int;
    assert(y * w + x < height * w) by {
        lemma_mul_inequality(y + 1, height as int, w);
        assert((y + 1) * w == y * w + w) by (nonlinear_arith);
    }
    assert(0 <= y * w) by (nonlinear_arith)
        requires
            0 <= y,
            0 <= w,
    ;
    assert(height * w == width * height) by (nonlinear_arith)
        requires
            w == width,
    ;
    lemma_fundamental_div_mod_converse(y * w + x, w, y, x);
}

/// Every place of a frame holds a pixel of the frame, whose place it is.
pub proof fn lemma_place_has_its_pixel(width: u32, height: u32, index: int)
    requires
        0 <= index < width * height,
    ensures
        pixel_at(width, index).x < width,
        pixel_at(width, index).y < height,
        index_of(width, pixel_at(width, index)) == index,
{
    let w = width as int;
    assert(w > 0) by (nonlinear_arith)
        requires
            0 <= index < w * height,
            0 <= w,
    ;
    let x = index % w;
    let y = index / w;
    vstd::arithmetic::div_mod::lemma_fundamental_div_mod(index, w);
    vstd::arithmetic::div_mod::lemma_mod_bound(index, w);
    assert(index == w * y + x);
    assert(0 <= y < height) by (nonlinear_arith)
        requires
            index == w * y + x,
            0 <= x < w,
            0 <= index < w * height,
    ;
    assert(w * y == y * w) by (nonlinear_arith);
}

/// `color` may be the colour of `pixel` in a frame of `width` by `height`
/// pixels: the colour of the escape time of the point that the pixel maps to.
pub open spec fn shades<T: Scalar>(
    pixel: Pixel,
    width: u32,
    height: u32,
    viewport: Viewport<T>,
    settings: Settings<T>,
    color: Color,
) -> bool {
    exists|c: Complex<T>, iterations: u32|
        {
            &&& maps_pixel(pixel, width, height, viewport, c)
            &&& #[trigger] escapes_after(c, settings.escape_target, settings.max_iterations, iterations)
            &&& colors::<T>(iterations, settings.max_iterations, color)
        }
}

/// Computes the colour of one pixel: maps it to the plane, evaluates the
/// escape time there, and colours the result.
pub fn shade_pixel<T: Scalar>(
    pixel: Pixel,
    width: u32,
    height: u32,
    viewport: &Viewport<T>,
    settings: &Settings<T>,
) -> (color: Color)
    ensures
        shades(pixel, width, height, *viewport, *settings, color),
{
    let c = convert_pixel_to_complex(pixel, width, height, viewport);
    let iterations: u32 = is_in_mandelbrot_set(&c, settings.escape_target, settings.max_iterations);
    let color = color_for::<T>(iterations, settings.max_iterations);
    assert(maps_pixel(pixel, width, height, *viewport, c) && escapes_after(
        c,
        settings.escape_target,
        settings.max_iterations,
        iterations,
    ) && colors::<T>(iterations, settings.max_iterations, color));
    color
}

/// A rendered frame: one colour for each pixel, row after row from the top.
pub struct Frame {
    width: u32,
    height: u32,
    colors: Vec<Color>,
}

impl View for Frame {
    type V = Seq<Color>;

    /// The colours of the frame, row after row.
    closed spec fn view(&self) -> Seq<Color> {
        self.colors@
    }
}

impl Frame {
    #[verifier::type_invariant]
    spec fn well_formed(self) -> bool {
        self.colors@.len() == self.width * self.height
    }

    /// The number of pixels in a row.
    pub closed spec fn spec_width(&self) -> u32 {
        self.width
    }

    /// The number of rows.
    pub closed spec fn spec_height(&self) -> u32 {
        self.height
    }

    /// The colour of `pixel`.
    pub open spec fn spec_color_at(&self, pixel: Pixel) -> Color {
        self@[index_of(self.spec_width(), pixel)]
    }

    /// The number of pixels in a row.
    #[verifier::when_used_as_spec(spec_width)]
    pub fn width(&self) -> (width: u32)
        ensures
            width == self.spec_width(),
    {
        self.width
    }

    /// The number of rows.
    #[verifier::when_used_as_spec(spec_height)]
    pub fn height(&self) -> (height: u32)
        ensures
            height == self.spec_height(),
    {
        self.height
    }

    /// The colour of `pixel`, or `None` for a pixel outside the frame.
    pub fn color_at(&self, pixel: Pixel) -> (color: Option<Color>)
        ensures
            self@.len() == self.width() * self.height(),
            color == if pixel.x < self.width() && pixel.y < self.height() {
                Some(self.spec_color_at(pixel))
            } else {
                None
            },
    {
        proof {
            use_type_invariant(self);
        }
        if pixel.x < self.width && pixel.y < self.height {
            proof {
                lemma_pixel_has_its_place(self.width, self.height, pixel);
                assert(self.colors@.len() == self.colors.len() <= usize::MAX);
                assert(0 <= pixel.y * self.width <= index_of(self.width, pixel)) by (nonlinear_arith)
                    requires
                        index_of(self.width, pixel) == pixel.y * self.width + pixel.x,
                ;
            }
            let index: usize = pixel.y as usize * self.width as usize + pixel.x as usize;
            Some(self.colors[index])
        } else {
            None
        }
    }
}

/// `frame` may be the rendering of `viewport` into `width` by `height`
/// pixels: it has that size, and each of its pixels has a colour that the
/// pixel may get.
pub open spec fn shows<T: Scalar>(
    frame: Frame,
    width: u32,
    height: u32,
    viewport: Viewport<T>,
    settings: Settings<T>,
) -> bool {
    &&& frame.width() == width
    &&& frame.height() == height
    &&& frame@.len() == width * height
    &&& forall|x: u32, y: u32|
        x < width && y < height ==> shades(
            Pixel { x, y },
            width,
            height,
            viewport,
            settings,
            #[trigger] frame.spec_color_at(Pixel { x, y }),
        )
}

/// Renders the frame of `width` by `height` pixels that `viewport` shows:
/// every pixel gets the colour of the escape time of its point.
pub fn render_frame<T: Scalar>(
    width: u32,
    height: u32,
    viewport: &Viewport<T>,
    settings: &Settings<T>,
) -> (frame: Frame)
    requires
        width * height <= usize::MAX,
    ensures
        shows(frame, width, height, *viewport, *settings),
{
    let mut colors: Vec<Color> = Vec::new();
    let mut y: u32 = 0;
    while y < height
        invariant
            y <= height,
            colors@.len() == y * width,
            forall|i: int|
                0 <= i < colors@.len() ==> shades(
                    pixel_at(width, i),
                    width,
                    height,
                    *viewport,
                    *settings,
                    #[trigger] colors@[i],
                ),
        decreases height - y,
    {
        let mut x: u32 = 0;
        while x < width
            invariant
                x <= width,
                y < height,
                colors@.len() == y * width + x,
                forall|i: int|
                    0 <= i < colors@.len() ==> shades(
                        pixel_at(width, i),
                        width,
                        height,
                        *viewport,
                        *settings,
                        #[trigger] colors@[i],
                    ),
            decreases width - x,
        {
            let pixel = Pixel { x, y };
            let color = shade_pixel(pixel, width, height, viewport, settings);
            proof {
                lemma_pixel_has_its_place(width, height, pixel);
            }
            colors.push(color);
            x = x + 1;
        }
        assert((y + 1) * width == y * width + width) by (nonlinear_arith);
        y = y + 1;
    }
    assert(colors@.len() == width * height) by (nonlinear_arith)
        requires
            colors@.len() == y * width,
            y == height,
    ;
    let frame = Frame { width, height, colors };
    assert forall|x: u32, y: u32| x < width && y < height implies shades(
        Pixel { x, y },
        width,
        height,
        *viewport,
        *settings,
        #[trigger] frame.spec_color_at(Pixel { x, y }),
    ) by {
        lemma_pixel_has_its_place(width, height, Pixel { x, y });
    }
    frame
}

} // verus!
