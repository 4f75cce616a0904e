use radar_server::plugins::source_data::{DelayChange, DemoData, DemoDataError};

fn demo() -> DemoData {
    match DemoData::from_datasets(vec![vec![1, 2], vec![3], vec![]], vec![vec![-1, -2, -9], vec![-3], vec![]]) {
        Ok(d) => d,
        Err(e) => panic!("{:?}", e),
    }
}

#[test]
fn empty_recordings_are_refused() {
    assert_eq!(DemoData::from_datasets(vec![], vec![vec![1]]).err(), Some(DemoDataError::EmptyDataset));
    assert_eq!(DemoData::from_datasets(vec![vec![1]], vec![]).err(), Some(DemoDataError::EmptyDataset));
}

#[test]
fn mismatched_recordings_play_until_the_short_frame() {
    let mut d = match DemoData::from_datasets(vec![vec![1], vec![2, 3], vec![], vec![4]], vec![vec![5], vec![6], vec![]]) {
        Ok(d) => d,
        Err(e) => panic!("{:?}", e),
    };
    assert!(d.frame_ready());
    assert_eq!(d.frame_data().len(), 8);
    d.finish_frame(0);
    assert!(!d.frame_ready());
    d.finish_frame(0);
    assert!(d.frame_ready());
    assert!(d.frame_data().is_empty());
    d.finish_frame(0);
    assert!(!d.frame_ready());
    d.finish_frame(0);
    assert_eq!(d.idx(), 0);
}

#[test]
fn playback_starts_at_first_frame_with_auto_delay() {
    let d = demo();
    assert_eq!(d.idx(), 0);
    assert_eq!(d.frame_count(), 3);
    assert!(!d.manual_delay());
    assert_eq!(d.delay(), 0);
    assert_eq!(d.current_samples(), 2);
    let mut expected = 1i32.to_ne_bytes().to_vec();
    expected.extend_from_slice(&(-1i32).to_ne_bytes());
    expected.extend_from_slice(&2i32.to_ne_bytes());
    expected.extend_from_slice(&(-2i32).to_ne_bytes());
    assert_eq!(d.frame_data(), expected);
}

#[test]
fn playback_wraps_after_the_last_frame() {
    let mut d = demo();
    let mut seen = Vec::new();
    for _ in 0..7 {
        seen.push(d.idx());
        d.finish_frame(0);
    }
    assert_eq!(seen, vec![0, 1, 2, 0, 1, 2, 0]);
    assert_eq!(d.idx(), 1);
}

#[test]
fn auto_delay_follows_the_recording_truncated() {
    let mut d = demo();
    d.finish_frame(250);
    assert_eq!(d.delay(), 250);
    d.finish_frame(65536 + 17);
    assert_eq!(d.delay(), 17);
}

#[test]
fn manual_delay_sticks_until_reset() {
    let mut d = demo();
    assert_eq!(d.update_state(Some(40)), DelayChange::Manual(40));
    assert!(d.manual_delay());
    d.finish_frame(999);
    assert_eq!(d.delay(), 40);
    assert_eq!(d.update_state(None), DelayChange::Unchanged);
    d.finish_frame(999);
    assert_eq!(d.delay(), 40);
    assert_eq!(d.update_state(Some(0)), DelayChange::Auto);
    assert!(!d.manual_delay());
    assert_eq!(d.delay(), 40);
    d.finish_frame(12);
    assert_eq!(d.delay(), 12);
}

#[test]
fn empty_frame_packs_to_nothing() {
    let mut d = demo();
    d.finish_frame(0);
    d.finish_frame(0);
    assert_eq!(d.current_samples(), 0);
    assert!(d.frame_data().is_empty());
}
