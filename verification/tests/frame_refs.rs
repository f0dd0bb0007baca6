use mnu::mem::frame_refs::FrameReferenceTable;

#[test]
fn unshared_frames_are_released_to_their_owner() {
    let mut table = FrameReferenceTable::new();
    assert!(table.release(0x1000));
}

#[test]
fn shared_frame_counts_down() {
    let mut table = FrameReferenceTable::new();
    assert_eq!(table.retain(0x5000), Ok(()));
    assert_eq!(table.retain(0x5000), Ok(()));
    assert!(!table.release(0x5000));
    assert!(!table.release(0x5000));
    assert!(table.release(0x5000));
    assert!(table.release(0x6000));
}

#[test]
fn many_frames_survive_growth_and_deletion() {
    let mut table = FrameReferenceTable::new();
    let frames: Vec<u64> = (0..2000u64).map(|i| i * 0x1000 + 0x10_0000).collect();
    for &frame in &frames {
        assert_eq!(table.retain(frame), Ok(()));
    }
    for &frame in frames.iter().step_by(2) {
        assert!(!table.release(frame));
    }
    for &frame in frames.iter().step_by(2) {
        assert!(table.release(frame));
    }
    for &frame in frames.iter().step_by(2) {
        assert_eq!(table.retain(frame), Ok(()));
    }
    for &frame in &frames {
        assert!(!table.release(frame));
        assert!(table.release(frame));
    }
}

#[test]
fn deleted_slots_are_reused() {
    let mut table = FrameReferenceTable::new();
    for round in 0..500u64 {
        let frame = 0x4000_0000 + round * 0x1000;
        assert_eq!(table.retain(frame), Ok(()));
        assert!(!table.release(frame));
        assert!(table.release(frame));
    }
}

#[test]
fn three_retains_need_three_releases_before_the_last_owner() {
    let mut table = FrameReferenceTable::new();
    for _ in 0..3 {
        assert_eq!(table.retain(0x5000), Ok(()));
        assert_eq!(table.retain(0x9000), Ok(()));
    }
    assert!(!table.release(0x9000));
    for _ in 0..3 {
        assert!(!table.release(0x5000));
    }
    assert!(table.release(0x5000));
    assert!(table.release(0x7000));
}
