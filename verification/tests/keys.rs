use render_harness::keys::{Key, KeyEvent, KeyState, PressedKeys};

fn press(key: Key) -> KeyEvent {
    KeyEvent { state: KeyState::Pressed, key }
}

fn release(key: Key) -> KeyEvent {
    KeyEvent { state: KeyState::Released, key }
}

#[test]
fn new_set_is_empty() {
    let keys = PressedKeys::new();
    assert!(keys.is_empty());
    assert_eq!(keys.len(), 0);
    assert_eq!(keys.snapshot(), Vec::<Key>::new());
    assert!(!keys.contains(Key::A));
    assert_eq!(keys.position(Key::A), None);
}

#[test]
fn press_appends_in_order() {
    let mut keys = PressedKeys::new();
    keys.press(Key::W);
    keys.press(Key::Other(77));
    keys.press(Key::Left);
    assert_eq!(keys.snapshot(), vec![Key::W, Key::Other(77), Key::Left]);
    assert_eq!(keys.as_slice(), &[Key::W, Key::Other(77), Key::Left][..]);
    assert_eq!(keys.len(), 3);
    assert_eq!(keys.position(Key::Other(77)), Some(1));
    assert_eq!(keys.position(Key::Other(78)), None);
}

#[test]
fn duplicate_press_leaves_size_unchanged() {
    let mut keys = PressedKeys::new();
    keys.press(Key::A);
    keys.press(Key::D);
    assert_eq!(keys.len(), 2);
    keys.press(Key::A);
    keys.press(Key::A);
    assert_eq!(keys.len(), 2);
    assert_eq!(keys.snapshot(), vec![Key::A, Key::D]);
}

#[test]
fn release_removes_and_keeps_order() {
    let mut keys = PressedKeys::new();
    keys.press(Key::A);
    keys.press(Key::S);
    keys.press(Key::D);
    keys.release(Key::S);
    assert_eq!(keys.snapshot(), vec![Key::A, Key::D]);
    assert!(!keys.contains(Key::S));
    keys.release(Key::A);
    assert_eq!(keys.snapshot(), vec![Key::D]);
    keys.release(Key::D);
    assert!(keys.is_empty());
}

#[test]
fn release_of_absent_key_is_no_op() {
    let mut keys = PressedKeys::new();
    keys.release(Key::Space);
    assert!(keys.is_empty());
    keys.press(Key::Up);
    keys.release(Key::Down);
    assert_eq!(keys.snapshot(), vec![Key::Up]);
}

#[test]
fn other_keys_are_told_apart_by_code() {
    let mut keys = PressedKeys::new();
    keys.press(Key::Other(1));
    keys.press(Key::Other(2));
    keys.press(Key::Other(1));
    assert_eq!(keys.snapshot(), vec![Key::Other(1), Key::Other(2)]);
    keys.release(Key::Other(1));
    assert_eq!(keys.snapshot(), vec![Key::Other(2)]);
}

#[test]
fn latest_event_for_a_key_decides() {
    let runs: Vec<(Vec<KeyEvent>, bool)> = vec![
        (vec![], false),
        (vec![press(Key::A)], true),
        (vec![press(Key::A), release(Key::A)], false),
        (vec![release(Key::A)], false),
        (vec![release(Key::A), press(Key::A)], true),
        (vec![press(Key::A), press(Key::A), release(Key::A)], false),
        (vec![press(Key::A), release(Key::A), release(Key::A), press(Key::A)], true),
        (vec![press(Key::A), press(Key::W), release(Key::W)], true),
        (vec![press(Key::W), press(Key::A), release(Key::A), press(Key::W)], false),
    ];
    for (events, held) in runs {
        let mut keys = PressedKeys::new();
        for event in &events {
            keys.apply(*event);
        }
        assert_eq!(keys.contains(Key::A), held);
    }
}

#[test]
fn apply_follows_the_event_state() {
    let mut keys = PressedKeys::new();
    keys.apply(press(Key::Q));
    assert_eq!(keys.snapshot(), vec![Key::Q]);
    keys.apply(press(Key::Escape));
    assert_eq!(keys.snapshot(), vec![Key::Q, Key::Escape]);
    keys.apply(release(Key::Q));
    assert_eq!(keys.snapshot(), vec![Key::Escape]);
}

#[test]
fn press_then_release_observed_by_reader() {
    let mut keys = PressedKeys::new();
    assert_eq!(keys.snapshot(), Vec::<Key>::new());
    keys.apply(press(Key::A));
    assert_eq!(keys.snapshot(), vec![Key::A]);
    keys.apply(release(Key::A));
    assert_eq!(keys.snapshot(), Vec::<Key>::new());
}
