//! One turn of the render loop: the pending input is handled, and unless it
//! asks to quit, the next frame is rendered.

use vstd::prelude::*;
use crate::escape::Settings;
use crate::frame::{render_frame, shows, Frame};
use crate::input::{asks_to_quit, commands_of, handle_events, handled, InputEvent};
use crate::scalar::Scalar;
use crate::viewport::{runs, Viewport};

verus! {

/// Takes one turn of the render loop. The pending `events` are handled in
/// order, which may move `viewport`. If one of them asks to quit, the loop
/// is over and no frame is rendered: the result is `None`. Otherwise the
/// result is the frame that the viewport shows once all events are handled.
pub fn next_frame<T: Scalar>(
    viewport: &mut Viewport<T>,
    events: &Vec<InputEvent>,
    width: u32,
    height: u32,
    settings: &Settings<T>,
) -> (frame: Option<Frame>)
    requires
        width * height <= usize::MAX,
    ensures
        frame is None <==> exists|i: int| 0 <= i < events@.len() && asks_to_quit(#[trigger] events@[i]),
        exists|count: int|
            {
                &&& #[trigger] handled(events@, count)
                &&& runs(
                    commands_of(events@.take(count)),
                    width,
                    height,
                    *old(viewport),
                    *final(viewport),
                )
            },
        frame is Some ==> runs(commands_of(events@), width, height, *old(viewport), *final(viewport)),
        frame matches Some(rendered) ==> shows(rendered, width, height, *final(viewport), *settings),
{
    if handle_events(viewport, events, width, height) {
        None
    } else {
        Some(render_frame(width, height, viewport, settings))
    }
}

} // verus!
