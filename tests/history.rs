use uitea::history::{Historic, HistoryError, HISTORY_RETAINED, HISTORY_TRIM_THRESHOLD};

fn doc(a: i32) -> String {
    format!("{{a:{}}}", a)
}

#[test]
fn three_records_then_undo_and_redo() {
    let mut h: Historic<String> = Historic::new();
    h.set_new(doc(1));
    h.set_new(doc(2));
    h.set_new(doc(3));

    assert_eq!(h.undo(), Ok(doc(2)));
    assert_eq!(h.get_present(), Ok(doc(2)));
    assert_eq!(h.past(), &vec![doc(1)]);
    assert_eq!(h.future(), &vec![doc(3)]);

    assert_eq!(h.undo(), Ok(doc(1)));
    assert_eq!(h.get_present(), Ok(doc(1)));
    assert!(h.past().is_empty());
    assert_eq!(h.future(), &vec![doc(3), doc(2)]);

    assert_eq!(h.undo(), Err(HistoryError::NoHistory));
    assert_eq!(h.get_present(), Ok(doc(1)));

    assert_eq!(h.redo(), Ok(doc(2)));
    assert_eq!(h.get_present(), Ok(doc(2)));
}

#[test]
fn peek_after_records_and_undos() {
    for n in 1..=26usize {
        for k in 0..n {
            let mut h: Historic<usize> = Historic::new();
            for v in 1..=n {
                h.set_new(v);
            }
            for _ in 0..k {
                assert!(h.undo().is_ok());
            }
            assert_eq!(h.get_present(), Ok(n - k));
            assert_eq!(h.peek_present(), Some(&(n - k)));
        }
    }
}

#[test]
fn undo_redo_undo_round_trip() {
    let mut h: Historic<i32> = Historic::new();
    for v in [10, 20, 30, 40] {
        h.set_new(v);
    }
    assert_eq!(h.undo(), Ok(30));
    assert_eq!(h.redo(), Ok(40));
    assert_eq!(h.undo(), Ok(30));
    assert_eq!(h.get_present(), Ok(30));
    for _ in 0..5 {
        h.undo().unwrap();
        h.redo().unwrap();
        assert_eq!(h.get_present(), Ok(30));
    }
    assert_eq!(h.past(), &vec![10, 20]);
    assert_eq!(h.future(), &vec![40]);
}

#[test]
fn record_after_undo_clears_future() {
    let mut h: Historic<i32> = Historic::new();
    h.set_new(1);
    h.set_new(2);
    h.set_new(3);
    h.undo().unwrap();
    h.undo().unwrap();
    assert_eq!(h.future().len(), 2);
    h.set_new(7);
    assert!(h.future().is_empty());
    assert_eq!(h.redo(), Err(HistoryError::NoHistory));
    assert_eq!(h.get_present(), Ok(7));
    assert_eq!(h.past(), &vec![1]);
}

#[test]
fn past_is_trimmed_over_threshold() {
    let mut h: Historic<usize> = Historic::new();
    for v in 0..=HISTORY_TRIM_THRESHOLD {
        h.set_new(v);
    }
    assert_eq!(h.past().len(), HISTORY_TRIM_THRESHOLD);
    h.set_new(100);
    assert_eq!(h.past().len(), HISTORY_RETAINED);
    let expected: Vec<usize> = (HISTORY_TRIM_THRESHOLD + 1 - HISTORY_RETAINED..=HISTORY_TRIM_THRESHOLD).collect();
    assert_eq!(h.past(), &expected);
    for v in 200..300 {
        h.set_new(v);
        assert!(h.past().len() <= HISTORY_TRIM_THRESHOLD);
    }
}

#[test]
fn trim_limits_how_far_undo_goes() {
    let mut h: Historic<usize> = Historic::new();
    for v in 1..=30 {
        h.set_new(v);
    }
    let available = h.past().len();
    for k in 1..=available {
        assert_eq!(h.undo(), Ok(30 - k));
    }
    assert_eq!(h.undo(), Err(HistoryError::NoHistory));
}

#[test]
fn redo_never_trims() {
    let mut h: Historic<usize> = Historic::from_parts((0..25).collect(), Some(25), vec![26]);
    assert_eq!(h.past(), &(1..25).collect::<Vec<usize>>());
    assert_eq!(h.redo(), Ok(26));
    assert_eq!(h.past().len(), HISTORY_TRIM_THRESHOLD);
    assert_eq!(h.past().last(), Some(&25));
    assert_eq!(h.undo(), Ok(25));
    assert_eq!(h.future(), &vec![26]);
}

#[test]
fn can_undo_redo_flags() {
    let mut h: Historic<i32> = Historic::new();
    let a = h.can_undo_redo();
    assert!(!a.can_undo && !a.can_redo);
    h.set_new(1);
    let a = h.can_undo_redo();
    assert!(!a.can_undo && !a.can_redo);
    h.set_new(2);
    let a = h.can_undo_redo();
    assert!(a.can_undo && !a.can_redo);
    h.undo().unwrap();
    let a = h.can_undo_redo();
    assert!(!a.can_undo && a.can_redo);
}

#[test]
fn present_missing_before_first_record() {
    let h: Historic<i32> = Historic::new();
    assert_eq!(h.get_present(), Err(HistoryError::NoPresent));
    assert!(!h.has_present());
    let mut h = h;
    assert_eq!(h.redo(), Err(HistoryError::NoHistory));
    assert_eq!(h.undo(), Err(HistoryError::NoHistory));
}

#[test]
fn stored_parts_round_trip() {
    let h: Historic<i32> = Historic::from_parts(vec![1, 2], Some(3), vec![5, 4]);
    let (past, present, future) = h.into_parts();
    assert_eq!(past, vec![1, 2]);
    assert_eq!(present, Some(3));
    assert_eq!(future, vec![5, 4]);
    let h: Historic<i32> = Historic::from_parts(vec![1, 2], None, vec![4]);
    assert!(h.past().is_empty());
    assert!(h.future().is_empty());
    let long: Historic<i32> = Historic::from_parts((0..40).collect(), Some(40), vec![]);
    assert_eq!(long.past(), &(25..40).collect::<Vec<i32>>());
    let crowded: Historic<i32> = Historic::from_parts((1..=20).collect(), Some(0), (100..110).collect());
    assert_eq!(crowded.past(), &(6..=20).collect::<Vec<i32>>());
    assert_eq!(crowded.future().len(), 10);
}
