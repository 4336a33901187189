use orbit_cam::events::last_event;

#[test]
fn no_events_give_nothing() {
    let v: Vec<(i32, i32)> = Vec::new();
    assert_eq!(last_event(&v), None);
}

#[test]
fn single_event_is_taken() {
    assert_eq!(last_event(&vec![7u8]), Some(7u8));
}

#[test]
fn last_event_wins() {
    let v = vec![(1.5f32, -2.0f32), (0.25, 4.0), (-3.0, 0.5)];
    assert_eq!(last_event(&v), Some((-3.0f32, 0.5f32)));
    assert_eq!(last_event(&vec![3i64, 9, 9, -1]), Some(-1i64));
}
