use motion_capture::{Detector, Outcome};

#[test]
fn first_frame_becomes_reference_without_motion() {
    let mut d: Detector<Vec<u8>> = Detector::new();
    assert!(!d.has_reference());
    let o = d.observe(vec![1, 2, 3], None);
    assert_eq!(o, Outcome::Bootstrapped);
    assert!(!o.records());
    assert_eq!(d.reference(), Some(&vec![1, 2, 3]));
    assert_eq!(d.frame_counter, 1);
}

#[test]
fn identical_frames_confirm_no_motion() {
    let frame = vec![7u8; 16];
    let mut d: Detector<Vec<u8>> = Detector::new();
    let mut recorded = 0;
    for _ in 0..2 {
        let contours = if d.has_reference() { Some(0) } else { None };
        let o = d.observe(frame.clone(), contours);
        if o.records() {
            recorded += 1;
        }
    }
    assert_eq!(recorded, 0);
    assert_eq!(d.frame_counter, 2);
}

#[test]
fn found_region_confirms_motion_and_replaces_reference() {
    let mut d: Detector<u32> = Detector::new();
    d.observe(10, None);
    assert_eq!(d.observe(11, Some(0)), Outcome::Unchanged);
    assert_eq!(d.reference(), Some(&10));
    let o = d.observe(12, Some(1));
    assert_eq!(o, Outcome::Motion { frames_since_last: 2 });
    assert!(o.records());
    assert_eq!(d.reference(), Some(&12));
    assert_eq!(d.frame_counter, 0);
}

#[test]
fn counter_counts_frames_since_last_motion() {
    let mut d: Detector<u32> = Detector::new();
    d.observe(0, None);
    d.observe(1, Some(3));
    assert_eq!(d.frame_counter, 0);
    for i in 0..5u32 {
        assert_eq!(d.observe(2 + i, Some(0)), Outcome::Unchanged);
    }
    assert_eq!(d.frame_counter, 5);
    assert_eq!(d.reference(), Some(&1));
    assert_eq!(d.observe(9, Some(4)), Outcome::Motion { frames_since_last: 5 });
    assert_eq!(d.frame_counter, 0);
}

#[test]
fn only_confirmed_frames_are_recorded() {
    let counts = [None, Some(0), Some(2), Some(0), Some(0), Some(1), Some(0)];
    let mut d: Detector<usize> = Detector::new();
    let mut recorded = Vec::new();
    for (i, c) in counts.iter().enumerate() {
        if d.observe(i, *c).records() {
            recorded.push(i);
        }
    }
    assert_eq!(recorded, vec![2, 5]);
    assert_eq!(d.reference(), Some(&5));
    assert_eq!(d.frame_counter, 1);
}
