//! The viewport, and the commands that move it.

use vstd::prelude::*;
use crate::scalar::{converts, difference, negation, product, ratio, ratio_of, sum, Scalar};

verus! {

/// The rectangle of the complex plane that the frame shows: the bounds
/// before zooming, and the zoom factor that each of the four bounds is
/// multiplied by when it is read.
#[derive(Debug)]
pub struct Viewport<T> {
    /// The real bound of the frame's left edge.
    pub real_min: T,
    /// The real bound of the frame's right edge.
    pub real_max: T,
    /// The imaginary bound of the frame's top edge.
    pub imag_min: T,
    /// The imaginary bound of the frame's bottom edge.
    pub imag_max: T,
    /// The factor applied to every bound.
    pub zoom: T,
}

impl<T: Copy> Clone for Viewport<T> {
    fn clone(&self) -> (copy: Self)
        ensures
            copy == *self,
    {
        *self
    }
}

impl<T: Copy> Copy for Viewport<T> {

}

/// A command to the viewer.
#[derive(Clone, Copy, Debug, PartialEq, Eq, Structural)]
pub enum Command {
    /// End the render loop. The viewport stays as it is.
    Quit,
    /// Restore the default viewport.
    Reset,
    /// Shift both real bounds down by one pan step.
    PanLeft,
    /// Shift both real bounds up by one pan step.
    PanRight,
    /// Shift both imaginary bounds up by one pan step.
    PanUp,
    /// Shift both imaginary bounds down by one pan step.
    PanDown,
    /// Multiply the zoom factor by one half.
    ZoomOut,
    /// Multiply the zoom factor by three halves.
    ZoomIn,
}

/// `step` may be the pan step, one half.
pub open spec fn pan_step<T: Scalar>(step: T) -> bool {
    ratio(1, 2, step)
}

/// `bound` may be the imaginary bound of the top edge by default, twelve
/// tenths.
pub open spec fn default_top<T: Scalar>(bound: T) -> bool {
    ratio(12, 10, bound)
}

/// `bound` may be the imaginary bound of the bottom edge by default, for a
/// frame of `width` by `height` pixels: `-(3 * (height / width) - 12 / 10)`,
/// which makes a pixel as high as it is wide.
pub open spec fn default_bottom<T: Scalar>(width: u32, height: u32, bound: T) -> bool {
    exists|three: T, aspect: T, tall: T, top: T, below: T|
        #![trigger product(three, aspect, tall), difference(tall, top, below)]
        {
            &&& converts(3, three)
            &&& ratio(height, width, aspect)
            &&& product(three, aspect, tall)
            &&& default_top(top)
            &&& difference(tall, top, below)
            &&& negation(below, bound)
        }
}

/// `viewport` may be the default viewport for a frame of `width` by `height`
/// pixels: the real axis from -2 to 1, the imaginary axis from twelve tenths
/// down as far as square pixels take it, and no zoom.
pub open spec fn is_default<T: Scalar>(width: u32, height: u32, viewport: Viewport<T>) -> bool {
    &&& exists|two: T| converts(2, two) && #[trigger] negation(two, viewport.real_min)
    &&& converts(1, viewport.real_max)
    &&& default_top(viewport.imag_min)
    &&& default_bottom(width, height, viewport.imag_max)
    &&& converts(1, viewport.zoom)
}

/// `after` may be `before` moved by one pan step along the real axis, where
/// `down` tells the direction.
pub open spec fn pans_real<T: Scalar>(down: bool, before: Viewport<T>, after: Viewport<T>) -> bool {
    &&& exists|step: T| #[trigger]
        pan_step(step) && shifted(down, before.real_min, step, after.real_min) && shifted(
            down,
            before.real_max,
            step,
            after.real_max,
        )
    &&& after.imag_min == before.imag_min
    &&& after.imag_max == before.imag_max
    &&& after.zoom == before.zoom
}

/// `after` may be `before` moved by one pan step along the imaginary axis,
/// where `down` tells the direction.
pub open spec fn pans_imaginary<T: Scalar>(down: bool, before: Viewport<T>, after: Viewport<T>) -> bool {
    &&& exists|step: T| #[trigger]
        pan_step(step) && shifted(down, before.imag_min, step, after.imag_min) && shifted(
            down,
            before.imag_max,
            step,
            after.imag_max,
        )
    &&& after.real_min == before.real_min
    &&& after.real_max == before.real_max
    &&& after.zoom == before.zoom
}

/// `r` may be `bound - step` where `down` holds, else `bound + step`.
pub open spec fn shifted<T: Scalar>(down: bool, bound: T, step: T, r: T) -> bool {
    if down {
        difference(bound, step, r)
    } else {
        sum(bound, step, r)
    }
}

/// `after` may be `before` with its zoom factor multiplied by
/// `numerator / denominator`.
pub open spec fn zooms<T: Scalar>(numerator: u32, denominator: u32, before: Viewport<T>, after: Viewport<T>) -> bool {
    &&& exists|factor: T| #[trigger]
        ratio(numerator, denominator, factor) && product(before.zoom, factor, after.zoom)
    &&& after.real_min == before.real_min
    &&& after.real_max == before.real_max
    &&& after.imag_min == before.imag_min
    &&& after.imag_max == before.imag_max
}

/// `after` may be what `command` makes of the viewport `before`, for a frame
/// of `width` by `height` pixels.
pub open spec fn applies<T: Scalar>(
    command: Command,
    width: u32,
    height: u32,
    before: Viewport<T>,
    after: Viewport<T>,
) -> bool {
    match command {
        Command::Quit => after == before,
        Command::Reset => is_default(width, height, after),
        Command::PanLeft => pans_real(true, before, after),
        Command::PanRight => pans_real(false, before, after),
        Command::PanUp => pans_imaginary(false, before, after),
        Command::PanDown => pans_imaginary(true, before, after),
        Command::ZoomOut => zooms(1, 2, before, after),
        Command::ZoomIn => zooms(3, 2, before, after),
    }
}

/// `states` may be the viewports that one viewport passes through while
/// `commands` are carried out on it in order.
pub open spec fn is_run<T: Scalar>(
    commands: Seq<Command>,
    width: u32,
    height: u32,
    states: Seq<Viewport<T>>,
) -> bool {
    &&& states.len() == commands.len() + 1
    &&& forall|i: int|
        0 <= i < commands.len() ==> applies(
            #[trigger] commands[i],
            width,
            height,
            states[i],
            states[i + 1],
        )
}

/// `after` may be what `commands`, carried out in order, make of the
/// viewport `before`.
pub open spec fn runs<T: Scalar>(
    commands: Seq<Command>,
    width: u32,
    height: u32,
    before: Viewport<T>,
    after: Viewport<T>,
) -> bool {
    exists|states: Seq<Viewport<T>>|
        {
            &&& #[trigger] is_run(commands, width, height, states)
            &&& states[0] == before
            &&& states[commands.len() as int] == after
        }
}

/// Taking a pan step down from `bound` and a pan step up again leads back to
/// `bound` exactly. Whether this holds of a bound depends on the arithmetic.
pub open spec fn step_restores<T: Scalar>(bound: T) -> bool {
    forall|down: T, lowered: T, up: T, raised: T|
        #![trigger difference(bound, down, lowered), sum(lowered, up, raised)]
        pan_step(down) && difference(bound, down, lowered) && pan_step(up) && sum(lowered, up, raised)
            ==> raised == bound
}

/// Whatever commands came before it, and whatever the viewport was, a reset
/// leaves the default viewport.
pub proof fn lemma_reset_restores_default<T: Scalar>(
    commands: Seq<Command>,
    width: u32,
    height: u32,
    before: Viewport<T>,
    after: Viewport<T>,
)
    requires
        commands.len() > 0,
        commands.last() == Command::Reset,
        runs(commands, width, height, before, after),
    ensures
        is_default(width, height, after),
{
    let states = choose|states: Seq<Viewport<T>>|
        {
            &&& #[trigger] is_run(commands, width, height, states)
            &&& states[0] == before
            &&& states[commands.len() as int] == after
        };
    let last = commands.len() - 1;
    assert(applies(commands[last], width, height, states[last], states[last + 1]));
}

/// A pan to the left followed by a pan to the right leaves the viewport as
/// it was, provided that the arithmetic restores both real bounds.
pub proof fn lemma_pan_left_then_right<T: Scalar>(
    width: u32,
    height: u32,
    before: Viewport<T>,
    between: Viewport<T>,
    after: Viewport<T>,
)
    requires
        applies(Command::PanLeft, width, height, before, between),
        applies(Command::PanRight, width, height, between, after),
        step_restores(before.real_min),
        step_restores(before.real_max),
    ensures
        after == before,
{
    let down = choose|step: T| #[trigger]
        pan_step(step) && shifted(true, before.real_min, step, between.real_min) && shifted(
            true,
            before.real_max,
            step,
            between.real_max,
        );
    let up = choose|step: T| #[trigger]
        pan_step(step) && shifted(false, between.real_min, step, after.real_min) && shifted(
            false,
            between.real_max,
            step,
            after.real_max,
        );
    assert(difference(before.real_min, down, between.real_min) && sum(
        between.real_min,
        up,
        after.real_min,
    ));
    assert(difference(before.real_max, down, between.real_max) && sum(
        between.real_max,
        up,
        after.real_max,
    ));
}

impl<T: Scalar> Viewport<T> {
    /// The default viewport for a frame of `width` by `height` pixels.
    pub fn default_for(width: u32, height: u32) -> (viewport: Self)
        ensures
            is_default(width, height, viewport),
    {
        let two: T = T::from_u32(2);
        let three: T = T::from_u32(3);
        let aspect: T = ratio_of(height, width);
        let tall: T = three.mul(aspect);
        let top: T = ratio_of(12, 10);
        let below: T = tall.sub(top);
        let viewport = Viewport {
            real_min: two.neg(),
            real_max: T::from_u32(1),
            imag_min: ratio_of(12, 10),
            imag_max: below.neg(),
            zoom: T::from_u32(1),
        };
        assert(converts(2, two) && negation(two, viewport.real_min));
        assert(default_bottom(width, height, viewport.imag_max)) by {
            assert(converts(3, three) && ratio(height, width, aspect) && product(three, aspect, tall)
                && default_top(top) && difference(tall, top, below) && negation(
                below,
                viewport.imag_max,
            ));
        }
        viewport
    }

    /// The zoomed real bound of the left edge: `zoom * real_min`.
    pub fn zoomed_real_min(&self) -> (bound: T)
        ensures
            product(self.zoom, self.real_min, bound),
    {
        self.zoom.mul(self.real_min)
    }

    /// The zoomed real bound of the right edge: `zoom * real_max`.
    pub fn zoomed_real_max(&self) -> (bound: T)
        ensures
            product(self.zoom, self.real_max, bound),
    {
        self.zoom.mul(self.real_max)
    }

    /// The zoomed imaginary bound of the top edge: `zoom * imag_min`.
    pub fn zoomed_imag_min(&self) -> (bound: T)
        ensures
            product(self.zoom, self.imag_min, bound),
    {
        self.zoom.mul(self.imag_min)
    }

    /// The zoomed imaginary bound of the bottom edge: `zoom * imag_max`.
    pub fn zoomed_imag_max(&self) -> (bound: T)
        ensures
            product(self.zoom, self.imag_max, bound),
    {
        self.zoom.mul(self.imag_max)
    }

    /// Carries out `command` on the viewport of a frame of `width` by
    /// `height` pixels.
    pub fn apply(&mut self, command: Command, width: u32, height: u32)
        ensures
            applies(command, width, height, *old(self), *final(self)),
    {
        match command {
            Command::Quit => {},
            Command::Reset => {
                *self = Self::default_for(width, height);
            },
            Command::PanLeft => {
                let step: T = ratio_of(1, 2);
                self.real_min = self.real_min.sub(step);
                self.real_max = self.real_max.sub(step);
                assert(pan_step(step) && shifted(true, old(self).real_min, step, self.real_min)
                    && shifted(true, old(self).real_max, step, self.real_max));
            },
            Command::PanRight => {
                let step: T = ratio_of(1, 2);
                self.real_min = self.real_min.add(step);
                self.real_max = self.real_max.add(step);
                assert(pan_step(step) && shifted(false, old(self).real_min, step, self.real_min)
                    && shifted(false, old(self).real_max, step, self.real_max));
            },
            Command::PanUp => {
                let step: T = ratio_of(1, 2);
                self.imag_min = self.imag_min.add(step);
                self.imag_max = self.imag_max.add(step);
                assert(pan_step(step) && shifted(false, old(self).imag_min, step, self.imag_min)
                    && shifted(false, old(self).imag_max, step, self.imag_max));
            },
            Command::PanDown => {
                let step: T = ratio_of(1, 2);
                self.imag_min = self.imag_min.sub(step);
                self.imag_max = self.imag_max.sub(step);
                assert(pan_step(step) && shifted(true, old(self).imag_min, step, self.imag_min)
                    && shifted(true, old(self).imag_max, step, self.imag_max));
            },
            Command::ZoomOut => {
                let factor: T = ratio_of(1, 2);
                self.zoom = self.zoom.mul(factor);
                assert(ratio(1, 2, factor) && product(old(self).zoom, factor, self.zoom));
            },
            Command::ZoomIn => {
                let factor: T = ratio_of(3, 2);
                self.zoom = self.zoom.mul(factor);
                assert(ratio(3, 2, factor) && product(old(self).zoom, factor, self.zoom));
            },
        }
    }
}

} // verus!
