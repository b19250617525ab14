//! The event thread's decisions: what one platform event does to the
//! shared cells and whether it ends the program.
//!
//! An event touches at most one cell, so the event thread never needs
//! more than one lock at a time.

use vstd::prelude::*;
use crate::keys::{Key, KeyEvent, KeyState};
use crate::window::SurfaceSize;

verus! {

/// A platform event, as far as the event thread tells events apart.
#[derive(Debug, PartialEq)]
pub enum Event<T> {
    /// The window has a new size.
    Resized { width: u32, height: u32 },
    /// The user asked for the window to be closed.
    CloseRequested,
    /// A key went down or came up. `key` is `None` where the platform
    /// could not name the key.
    Keyboard { state: KeyState, key: Option<Key> },
    /// The mouse moved by `dx` and `dy`.
    MouseMotion { dx: T, dy: T },
    /// Any other event.
    Other,
}

/// What the event loop does once the event is handled.
#[derive(Clone, Copy, Debug, PartialEq, Eq, Structural)]
pub enum ControlFlow {
    /// Sleep until the next event arrives.
    Wait,
    /// Leave the loop and end the program.
    Exit,
}

/// The one change to the shared cells that an event calls for.
#[derive(Debug, PartialEq)]
pub enum Update<T> {
    /// No cell changes.
    Nothing,
    /// The window size cell takes a new size.
    Window(SurfaceSize),
    /// The pressed keys take a keyboard event.
    Keys(KeyEvent),
    /// The mouse motion cell takes a sample.
    Mouse { dx: T, dy: T },
}

/// The outcome of handling one event.
#[derive(Debug, PartialEq)]
pub struct Dispatch<T> {
    pub flow: ControlFlow,
    pub update: Update<T>,
}

/// The two keys that end the program.
pub open spec fn is_exit_key(key: Key) -> bool {
    key == Key::Escape || key == Key::Q
}

/// Whether handling `event` ends the program: the render thread is known
/// to have failed, the user closed the window, or an exit key was
/// touched. `health` is what the health flag read, `None` where it could
/// not be read.
pub open spec fn requests_exit<T>(health: Option<bool>, event: Event<T>) -> bool {
    ||| health == Some(false)
    ||| event is CloseRequested
    ||| (event matches Event::Keyboard { key: Some(key), .. } && is_exit_key(key))
}

/// The change to the shared cells that `event` calls for.
pub open spec fn update_for<T>(event: Event<T>) -> Update<T> {
    match event {
        Event::Resized { width, height } => Update::Window(SurfaceSize { width, height }),
        Event::Keyboard { state, key: Some(key) } => Update::Keys(KeyEvent { state, key }),
        Event::MouseMotion { dx, dy } => Update::Mouse { dx, dy },
        _ => Update::Nothing,
    }
}

/// Whether `key` is one of the two keys that end the program.
pub fn exit_key(key: Key) -> (exit: bool)
    ensures
        exit == is_exit_key(key),
{
    match key {
        Key::Escape => true,
        Key::Q => true,
        _ => false,
    }
}

/// Handles one event. `health` is what the health flag read just before,
/// `None` where it could not be read.
///
/// An exit key ends the program whether it went down or came up, and
/// whether or not the pressed keys can be updated.
pub fn dispatch<T>(health: Option<bool>, event: Event<T>) -> (outcome: Dispatch<T>)
    ensures
        outcome.flow == (if requests_exit(health, event) {
            ControlFlow::Exit
        } else {
            ControlFlow::Wait
        }),
        outcome.update == update_for(event),
{
    let mut flow = ControlFlow::Wait;
    match health {
        Some(false) => {
            flow = ControlFlow::Exit;
        },
        _ => {},
    }
    let update = match event {
        Event::Resized { width, height } => Update::Window(SurfaceSize { width, height }),
        Event::CloseRequested => {
            flow = ControlFlow::Exit;
            Update::Nothing
        },
        Event::Keyboard { state, key: Some(key) } => {
            if exit_key(key) {
                flow = ControlFlow::Exit;
            }
            Update::Keys(KeyEvent { state, key })
        },
        Event::MouseMotion { dx, dy } => Update::Mouse { dx, dy },
        _ => Update::Nothing,
    };
    Dispatch { flow, update }
}

/// Once the health flag reads failed, every event ends the program.
pub proof fn lemma_failure_ends_program<T>(event: Event<T>)
    ensures
        requests_exit(Some(false), event),
{
}

/// While the render thread is not known to have failed, only a close
/// request and the exit keys end the program.
pub proof fn lemma_exit_causes<T>(health: Option<bool>, event: Event<T>)
    requires
        health != Some(false),
        requests_exit(health, event),
    ensures
        event is CloseRequested || (event is Keyboard && (event->key == Some(Key::Escape) || event->key
            == Some(Key::Q))),
{
}

} // verus!
