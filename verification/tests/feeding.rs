use pag_dataflow::epoch::epoch_of;
use pag_dataflow::feeder::{FeedStep, Feeder, WindowCount};

#[test]
fn epoch_is_floor_of_division() {
    assert_eq!(epoch_of(0, 1000), 0);
    assert_eq!(epoch_of(999, 1000), 0);
    assert_eq!(epoch_of(1000, 1000), 1);
    assert_eq!(epoch_of(2500, 1000), 2);
    assert_eq!(epoch_of(u64::MAX, 1), u64::MAX);
    assert_eq!(epoch_of(u64::MAX, u32::MAX), 4294967297);
}

#[test]
fn epoch_is_monotonic_on_sorted_timestamps() {
    let timestamps: Vec<u64> = vec![0, 1, 7, 7, 8, 15, 16, 100, 1 << 40];
    for width in [1u32, 3, 8, 1000] {
        let mut previous = 0u64;
        for t in &timestamps {
            let window = epoch_of(*t, width);
            assert!(previous <= window);
            previous = window;
        }
    }
}

#[test]
fn end_to_end_buckets_and_counts() {
    let mut feeder = Feeder::new(1000, 2);
    let mut windows = Vec::new();
    let mut crossings = Vec::new();
    let mut counts = Vec::new();
    for t in [0u64, 100, 999, 1000, 2500] {
        let step = feeder.offer(t);
        windows.push(step.window);
        if step.advance {
            crossings.push(step.window);
        }
        if let Some(closed) = step.closed {
            counts.push(closed);
        }
    }
    counts.push(feeder.finish());
    assert_eq!(windows, vec![0, 0, 0, 1, 2]);
    assert_eq!(crossings, vec![0, 1, 2]);
    assert_eq!(
        counts,
        vec![
            WindowCount { window: 0, records: 3 },
            WindowCount { window: 1, records: 1 },
            WindowCount { window: 2, records: 1 },
        ]
    );
}

#[test]
fn first_record_sets_trackers_and_opens_its_window() {
    let mut feeder = Feeder::new(10, 0);
    let step = feeder.offer(57);
    assert_eq!(step, FeedStep { window: 5, first: true, advance: true, closed: None });
    let step = feeder.offer(58);
    assert_eq!(step, FeedStep { window: 5, first: false, advance: false, closed: None });
    assert_eq!(feeder.finish(), WindowCount { window: 5, records: 2 });
}

#[test]
fn empty_input_counts_nothing() {
    let feeder = Feeder::new(10, 3);
    assert_eq!(feeder.finish(), WindowCount { window: 0, records: 0 });
    assert_eq!(feeder.lag_bound(), 0);
    assert_eq!(feeder.final_bound(), 0);
}

#[test]
fn unsorted_record_does_not_move_the_frontier_back() {
    let mut feeder = Feeder::new(10, 0);
    feeder.offer(50);
    let step = feeder.offer(20);
    assert_eq!(step, FeedStep { window: 2, first: false, advance: false, closed: None });
    assert_eq!(feeder.lag_bound(), 5);
    assert_eq!(feeder.finish(), WindowCount { window: 5, records: 2 });
}

#[test]
fn lag_bound_trails_the_frontier() {
    let mut feeder = Feeder::new(1000, 3);
    feeder.offer(2000);
    assert_eq!(feeder.lag_bound(), 0);
    feeder.offer(7500);
    assert_eq!(feeder.lag_bound(), 4);
    assert_eq!(feeder.final_bound(), 8);
}

#[test]
fn caught_up_looks_at_the_slowest_tracker() {
    let mut feeder = Feeder::new(1000, 3);
    feeder.offer(7500);
    assert!(feeder.caught_up(&vec![]));
    assert!(feeder.caught_up(&vec![4, 9, 7]));
    assert!(!feeder.caught_up(&vec![8, 3, 7]));
    let fresh = Feeder::new(1000, 0);
    assert!(fresh.caught_up(&vec![0]));
}

#[test]
fn drained_once_every_tracker_has_passed_the_frontier() {
    let mut feeder = Feeder::new(1000, 3);
    assert!(feeder.drained(&vec![0, 0]));
    feeder.offer(7500);
    assert!(feeder.drained(&vec![]));
    assert!(feeder.drained(&vec![8, 9]));
    assert!(!feeder.drained(&vec![8, 7]));
    assert!(!feeder.drained(&vec![0]));
}
