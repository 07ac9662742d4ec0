//! Input events and the commands they stand for.

use vstd::prelude::*;
use crate::scalar::Scalar;
use crate::viewport::{applies, is_run, runs, Command, Viewport};

verus! {

/// A key of the keyboard, as far as the viewer tells keys apart.
#[derive(Clone, Copy, Debug, PartialEq, Eq, Structural)]
pub enum Key {
    Q,
    Escape,
    R,
    Left,
    Right,
    Up,
    Down,
    PageUp,
    PageDown,
    /// Any key the viewer has no use for.
    Other,
}

/// An event of the input devices, as far as the viewer tells events apart.
#[derive(Clone, Copy, Debug, PartialEq, Eq, Structural)]
pub enum InputEvent {
    /// The user asked the window to close.
    Quit,
    /// A key went down.
    KeyPressed(Key),
}

/// The command bound to a key, if any.
pub open spec fn key_binding(key: Key) -> Option<Command> {
    match key {
        Key::Q | Key::Escape => Some(Command::Quit),
        Key::R => Some(Command::Reset),
        Key::Left => Some(Command::PanLeft),
        Key::Right => Some(Command::PanRight),
        Key::Up => Some(Command::PanUp),
        Key::Down => Some(Command::PanDown),
        Key::PageDown => Some(Command::ZoomOut),
        Key::PageUp => Some(Command::ZoomIn),
        Key::Other => None,
    }
}

/// Looks up the command bound to `key`.
pub fn command_for_key(key: Key) -> (command: Option<Command>)
    ensures
        command == key_binding(key),
{
    match key {
        Key::Q => Some(Command::Quit),
        Key::Escape => Some(Command::Quit),
        Key::R => Some(Command::Reset),
        Key::Left => Some(Command::PanLeft),
        Key::Right => Some(Command::PanRight),
        Key::Up => Some(Command::PanUp),
        Key::Down => Some(Command::PanDown),
        Key::PageDown => Some(Command::ZoomOut),
        Key::PageUp => Some(Command::ZoomIn),
        Key::Other => None,
    }
}

/// The command that an event stands for, if any.
pub open spec fn event_binding(event: InputEvent) -> Option<Command> {
    match event {
        InputEvent::Quit => Some(Command::Quit),
        InputEvent::KeyPressed(key) => key_binding(key),
    }
}

/// Whether an event asks the viewer to quit.
pub open spec fn asks_to_quit(event: InputEvent) -> bool {
    event_binding(event) == Some(Command::Quit)
}

/// The commands that `events` stand for, in the order of the events.
pub open spec fn commands_of(events: Seq<InputEvent>) -> Seq<Command>
    decreases events.len(),
{
    if events.len() == 0 {
        Seq::empty()
    } else {
        let earlier = commands_of(events.drop_last());
        match event_binding(events.last()) {
            Some(command) => earlier.push(command),
            None => earlier,
        }
    }
}

/// `count` is the number of events that get handled out of `events`: all of
/// them, or those before the first one that asks to quit.
pub open spec fn handled(events: Seq<InputEvent>, count: int) -> bool {
    &&& 0 <= count <= events.len()
    &&& forall|i: int| 0 <= i < count ==> !asks_to_quit(#[trigger] events[i])
    &&& count < events.len() ==> asks_to_quit(events[count])
}

/// Looks up the command that `event` stands for.
pub fn command_for_event(event: InputEvent) -> (command: Option<Command>)
    ensures
        command == event_binding(event),
{
    match event {
        InputEvent::Quit => Some(Command::Quit),
        InputEvent::KeyPressed(key) => command_for_key(key),
    }
}

/// Handles the pending events in order: carries out on `viewport` the command
/// of each, and stops at the first event that asks to quit, whose followers
/// are not looked at. Returns whether the viewer is to quit.
pub fn handle_events<T: Scalar>(
    viewport: &mut Viewport<T>,
    events: &Vec<InputEvent>,
    width: u32,
    height: u32,
) -> (quit: bool)
    ensures
        quit <==> exists|i: int| 0 <= i < events@.len() && asks_to_quit(#[trigger] events@[i]),
        exists|count: int|
            {
                &&& #[trigger] handled(events@, count)
                &&& runs(
                    commands_of(events@.take(count)),
                    width,
                    height,
                    *old(viewport),
                    *final(viewport),
                )
            },
        !quit ==> runs(commands_of(events@), width, height, *old(viewport), *final(viewport)),
{
    let mut i: usize = 0;
    let ghost mut states: Seq<Viewport<T>> = seq![*viewport];
    while i < events.len()
        invariant
            i <= events.len(),
            forall|j: int| 0 <= j < i ==> !asks_to_quit(#[trigger] events@[j]),
            is_run(commands_of(events@.take(i as int)), width, height, states),
            states[0] == *old(viewport),
            states[states.len() - 1] == *viewport,
        decreases events.len() - i,
    {
        let command = command_for_event(events[i]);
        proof {
            assert(events@.take(i + 1).drop_last() =~= events@.take(i as int));
        }
        match command {
            Some(Command::Quit) => {
                assert(handled(events@, i as int));
                return true;
            },
            Some(command) => {
                viewport.apply(command, width, height);
                proof {
                    states = states.push(*viewport);
                }
            },
            None => {},
        }
        i = i + 1;
    }
    assert(handled(events@, events@.len() as int));
    assert(events@.take(events@.len() as int) =~= events@);
    false
}

} // verus!
