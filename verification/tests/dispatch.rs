use render_harness::dispatch::{dispatch, exit_key, ControlFlow, Dispatch, Event, Update};
use render_harness::keys::{Key, KeyEvent, KeyState};
use render_harness::window::SurfaceSize;

#[test]
fn resize_event_updates_the_window_cell() {
    let outcome = dispatch::<f32>(Some(true), Event::Resized { width: 1024, height: 768 });
    assert_eq!(
        outcome,
        Dispatch {
            flow: ControlFlow::Wait,
            update: Update::Window(SurfaceSize { width: 1024, height: 768 }),
        }
    );
}

#[test]
fn close_request_exits_without_update() {
    let outcome = dispatch::<f32>(Some(true), Event::CloseRequested);
    assert_eq!(outcome, Dispatch { flow: ControlFlow::Exit, update: Update::Nothing });
}

#[test]
fn key_press_updates_the_pressed_keys() {
    let outcome = dispatch::<f32>(
        Some(true),
        Event::Keyboard { state: KeyState::Pressed, key: Some(Key::W) },
    );
    assert_eq!(
        outcome,
        Dispatch {
            flow: ControlFlow::Wait,
            update: Update::Keys(KeyEvent { state: KeyState::Pressed, key: Key::W }),
        }
    );
}

#[test]
fn key_release_updates_the_pressed_keys() {
    let outcome = dispatch::<f32>(
        Some(true),
        Event::Keyboard { state: KeyState::Released, key: Some(Key::Other(42)) },
    );
    assert_eq!(
        outcome,
        Dispatch {
            flow: ControlFlow::Wait,
            update: Update::Keys(KeyEvent { state: KeyState::Released, key: Key::Other(42) }),
        }
    );
}

#[test]
fn exit_keys_exit_on_press_and_on_release() {
    for key in [Key::Escape, Key::Q] {
        for state in [KeyState::Pressed, KeyState::Released] {
            let outcome = dispatch::<f32>(Some(true), Event::Keyboard { state, key: Some(key) });
            assert_eq!(
                outcome,
                Dispatch { flow: ControlFlow::Exit, update: Update::Keys(KeyEvent { state, key }) }
            );
        }
    }
}

#[test]
fn unnamed_key_is_ignored() {
    let outcome = dispatch::<f32>(Some(true), Event::Keyboard { state: KeyState::Pressed, key: None });
    assert_eq!(outcome, Dispatch { flow: ControlFlow::Wait, update: Update::Nothing });
}

#[test]
fn mouse_motion_updates_the_mouse_cell() {
    let outcome = dispatch(Some(true), Event::MouseMotion { dx: 1.5f32, dy: -2.0f32 });
    assert_eq!(
        outcome,
        Dispatch { flow: ControlFlow::Wait, update: Update::Mouse { dx: 1.5, dy: -2.0 } }
    );
}

#[test]
fn other_events_are_ignored() {
    let outcome = dispatch::<f32>(Some(true), Event::Other);
    assert_eq!(outcome, Dispatch { flow: ControlFlow::Wait, update: Update::Nothing });
}

#[test]
fn failed_health_exits_on_any_event() {
    assert_eq!(
        dispatch::<f32>(Some(false), Event::Other),
        Dispatch { flow: ControlFlow::Exit, update: Update::Nothing }
    );
    assert_eq!(
        dispatch::<f32>(Some(false), Event::Resized { width: 3, height: 4 }),
        Dispatch {
            flow: ControlFlow::Exit,
            update: Update::Window(SurfaceSize { width: 3, height: 4 }),
        }
    );
    assert_eq!(
        dispatch(Some(false), Event::MouseMotion { dx: 1i32, dy: 2i32 }),
        Dispatch { flow: ControlFlow::Exit, update: Update::Mouse { dx: 1, dy: 2 } }
    );
}

#[test]
fn unreadable_health_does_not_exit() {
    assert_eq!(
        dispatch::<f32>(None, Event::Other),
        Dispatch { flow: ControlFlow::Wait, update: Update::Nothing }
    );
    assert_eq!(dispatch::<f32>(None, Event::CloseRequested).flow, ControlFlow::Exit);
}

#[test]
fn exit_key_names_escape_and_q_only() {
    assert!(exit_key(Key::Escape));
    assert!(exit_key(Key::Q));
    for key in [
        Key::Left,
        Key::Right,
        Key::Up,
        Key::Down,
        Key::W,
        Key::A,
        Key::S,
        Key::D,
        Key::LShift,
        Key::Space,
        Key::Other(0),
        Key::Other(u32::MAX),
    ] {
        assert!(!exit_key(key));
    }
}
