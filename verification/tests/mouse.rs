use render_harness::mouse::MouseDelta;

fn sum(samples: &[(f32, f32)]) -> (f32, f32) {
    let mut total = (0.0f32, 0.0f32);
    for sample in samples {
        total = (total.0 + sample.0, total.1 + sample.1);
    }
    total
}

#[test]
fn new_cell_holds_no_motion() {
    let mut cell: MouseDelta<f32> = MouseDelta::new();
    assert!(cell.is_empty());
    let samples = cell.take();
    assert!(samples.is_empty());
    assert_eq!(sum(&samples), (0.0, 0.0));
}

#[test]
fn take_hands_out_samples_in_order() {
    let mut cell: MouseDelta<i32> = MouseDelta::new();
    cell.accumulate(1, -2);
    cell.accumulate(3, 4);
    cell.accumulate(-5, 6);
    assert!(!cell.is_empty());
    assert_eq!(cell.take(), vec![(1, -2), (3, 4), (-5, 6)]);
}

#[test]
fn take_resets_the_cell() {
    let mut cell: MouseDelta<f32> = MouseDelta::new();
    cell.accumulate(1.5, 2.0);
    let first = cell.take();
    assert_eq!(first, vec![(1.5, 2.0)]);
    assert!(cell.is_empty());
    let second = cell.take();
    assert!(second.is_empty());
    assert_eq!(sum(&second), (0.0, 0.0));
}

#[test]
fn read_sees_the_sum_since_the_last_read() {
    let mut cell: MouseDelta<f32> = MouseDelta::new();
    cell.accumulate(1.0, 1.0);
    cell.accumulate(2.5, -0.5);
    assert_eq!(sum(&cell.take()), (3.5, 0.5));
    cell.accumulate(-4.0, 8.0);
    cell.accumulate(0.25, 0.25);
    cell.accumulate(0.25, 0.25);
    assert_eq!(sum(&cell.take()), (-3.5, 8.5));
    assert_eq!(sum(&cell.take()), (0.0, 0.0));
}

#[test]
fn sum_matches_running_accumulation() {
    let deltas: Vec<(f32, f32)> = vec![(0.1, 0.2), (0.3, -0.7), (1.0e-3, 2.0e6), (-0.4, 0.5)];
    let mut running = (0.0f32, 0.0f32);
    let mut cell: MouseDelta<f32> = MouseDelta::new();
    for delta in &deltas {
        running = (running.0 + delta.0, running.1 + delta.1);
        cell.accumulate(delta.0, delta.1);
    }
    assert_eq!(sum(&cell.take()), running);
}
