use rpg_log::bar_slots;

#[test]
fn test_bar_slots() {
    // simple case 1:1 between points and slots
    let slots = 4;
    let total = 4;
    assert_eq!((0, 4), bar_slots(slots, total, 0));
    assert_eq!((1, 3), bar_slots(slots, total, 1));
    assert_eq!((2, 2), bar_slots(slots, total, 2));
    assert_eq!((3, 1), bar_slots(slots, total, 3));
    assert_eq!((4, 0), bar_slots(slots, total, 4));

    let total = 10;
    assert_eq!((0, 4), bar_slots(slots, total, 0));
    assert_eq!((1, 3), bar_slots(slots, total, 1));
    assert_eq!((1, 3), bar_slots(slots, total, 2));
    assert_eq!((2, 2), bar_slots(slots, total, 3));
    assert_eq!((2, 2), bar_slots(slots, total, 4));
    assert_eq!((2, 2), bar_slots(slots, total, 5));
    assert_eq!((3, 1), bar_slots(slots, total, 6));
    assert_eq!((3, 1), bar_slots(slots, total, 7));
    // this one I would maybe like to show as 3, 1
    assert_eq!((4, 0), bar_slots(slots, total, 8));
    assert_eq!((4, 0), bar_slots(slots, total, 9));
    assert_eq!((4, 0), bar_slots(slots, total, 10));
}

#[test]
fn bar_slots_bounded_and_monotone() {
    for slots in 1..=12 {
        for total in 1..=30 {
            let mut last = 0;
            for current in 0..=total {
                let (filled, empty) = bar_slots(slots, total, current);
                assert_eq!(filled + empty, slots);
                assert!(0 <= filled && filled <= slots);
                assert!(filled >= last);
                last = filled;
            }
        }
    }
}

#[test]
fn bar_slots_one_to_one() {
    for c in 0..=10 {
        assert_eq!(bar_slots(10, 10, c), (c, 10 - c));
    }
}

#[test]
fn bar_slots_zero_total_is_empty() {
    assert_eq!(bar_slots(4, 0, 0), (0, 4));
    assert_eq!(bar_slots(4, 0, 3), (0, 4));
}

#[test]
fn bar_slots_clamps_out_of_range_current() {
    assert_eq!(bar_slots(4, 10, 25), (4, 0));
    assert_eq!(bar_slots(4, 10, -3), (0, 4));
}

#[test]
fn bar_slots_large_values() {
    assert_eq!(bar_slots(10, i32::MAX, i32::MAX - 1), (10, 0));
    assert_eq!(bar_slots(10, i32::MAX, 1), (1, 9));
    assert_eq!(bar_slots(i32::MAX, i32::MAX, 5), (5, i32::MAX - 5));
}
