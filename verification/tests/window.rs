use two_auth::{
    CircularTimeWindow, Duration,
};

const DAY: i64 = 86400;

fn total(window: &CircularTimeWindow) -> u64 {
    window.window().iter().fold(0u64, |sum, value| sum.saturating_add(*value))
}

#[test]
fn circular_time_window() {
    let window = CircularTimeWindow::new(Duration::Days(30), 0);
    assert_eq!(window.get_count(), 0);
    assert_eq!(window.window().len(), 30);
}

#[test]
fn circular_time_window_add() {
    let day = 86400;
    let mut window = CircularTimeWindow::new(Duration::Days(30), 0);
    for i in 0..35 {
        window.add(i * day, 1);
    }
    assert!(window.get_count() == 30);
    window.add(100 * day, 0);
    assert!(window.get_count() == 0);
}

#[test]
fn new_window_is_empty_and_starts_at_slot_zero() {
    let window = CircularTimeWindow::new(Duration::Hours(4), 1234);
    assert_eq!(window.start_index(), 0);
    assert_eq!(window.last_value_time(), 1234);
    assert_eq!(window.duration(), Duration::Hours(4));
    assert_eq!(window.window(), &vec![0u64, 0, 0, 0]);
    assert_eq!(window.get_count(), 0);
}

#[test]
fn duration_gives_bucket_count_and_bucket_length() {
    assert_eq!(Duration::Seconds(7).get(), 7);
    assert_eq!(Duration::Minutes(8).get(), 8);
    assert_eq!(Duration::Hours(9).get(), 9);
    assert_eq!(Duration::Days(30).get(), 30);
    assert_eq!(Duration::Weeks(255).get(), 255);
    assert_eq!(Duration::Seconds(7).seconds_per_bucket(), 1);
    assert_eq!(Duration::Minutes(8).seconds_per_bucket(), 60);
    assert_eq!(Duration::Hours(9).seconds_per_bucket(), 3600);
    assert_eq!(Duration::Days(30).seconds_per_bucket(), 86400);
    assert_eq!(Duration::Weeks(255).seconds_per_bucket(), 604800);
    assert_eq!(Duration::LEN, 2);
}

#[test]
fn same_bucket_recording_replaces_the_value() {
    let mut window = CircularTimeWindow::new(Duration::Days(30), 0);
    window.add(0, 5);
    window.add(1, 3);
    assert_eq!(window.get_count(), 3);
    assert_eq!(window.start_index(), 0);
    assert_eq!(window.get(0), 3);
    assert_eq!(window.last_value_time(), 1);
}

#[test]
fn last_second_of_a_bucket_is_still_the_same_bucket() {
    let mut window = CircularTimeWindow::new(Duration::Days(30), 0);
    window.add(10, 5);
    window.add(10 + DAY - 1, 3);
    assert_eq!(window.start_index(), 0);
    assert_eq!(window.get_count(), 3);
    window.add(10 + DAY - 1 + DAY, 4);
    assert_eq!(window.start_index(), 1);
    assert_eq!(window.get_count(), 7);
}

#[test]
fn earlier_time_counts_as_the_same_bucket() {
    let mut window = CircularTimeWindow::new(Duration::Days(30), 10 * DAY);
    window.add(10 * DAY, 5);
    window.add(2 * DAY, 7);
    assert_eq!(window.start_index(), 0);
    assert_eq!(window.get_count(), 7);
    assert_eq!(window.last_value_time(), 2 * DAY);
}

#[test]
fn stale_reset_leaves_only_the_new_value() {
    let t0 = 5 * DAY;
    let mut window = CircularTimeWindow::new(Duration::Days(30), 0);
    window.add(t0, 11);
    window.add(t0 + 31 * DAY, 4);
    assert_eq!(window.get_count(), 4);
    assert_eq!(window.start_index(), 0);
    assert_eq!(window.get(0), 4);
    assert_eq!(window.last_value_time(), t0 + 31 * DAY);
}

#[test]
fn a_whole_ring_later_nothing_old_is_left() {
    let mut window = CircularTimeWindow::new(Duration::Seconds(5), 0);
    for second in 0..5 {
        window.add(second, 10 + second as u64);
    }
    assert_eq!(window.get_count(), 60);
    assert_eq!(window.start_index(), 4);
    window.add(9, 7);
    assert_eq!(window.start_index(), 4);
    assert_eq!(window.window(), &vec![0u64, 0, 0, 0, 7]);
    assert_eq!(window.get_count(), 7);
}

#[test]
fn advance_clears_the_buckets_it_passes_over() {
    let mut window = CircularTimeWindow::new(Duration::Seconds(5), 0);
    for second in 0..5 {
        window.add(second, 1 + second as u64);
    }
    assert_eq!(window.window(), &vec![1u64, 2, 3, 4, 5]);
    window.add(5, 6);
    assert_eq!(window.window(), &vec![6u64, 2, 3, 4, 5]);
    assert_eq!(window.start_index(), 0);
    window.add(7, 7);
    assert_eq!(window.window(), &vec![6u64, 0, 7, 4, 5]);
    assert_eq!(window.start_index(), 2);
    assert_eq!(window.get_count(), 22);
}

#[test]
fn advance_past_the_end_clears_both_ends_of_the_ring() {
    let mut window = CircularTimeWindow::new(Duration::Seconds(5), 0);
    for second in 0..4 {
        window.add(second, 1 + second as u64);
    }
    assert_eq!(window.window(), &vec![1u64, 2, 3, 4, 0]);
    assert_eq!(window.start_index(), 3);
    window.add(3 + 4, 9);
    assert_eq!(window.start_index(), 2);
    assert_eq!(window.window(), &vec![0u64, 0, 9, 4, 0]);
    assert_eq!(window.get_count(), 13);
}

#[test]
fn get_counts_forward_from_the_current_slot() {
    let mut window = CircularTimeWindow::new(Duration::Seconds(3), 0);
    window.add(0, 10);
    window.add(1, 20);
    window.add(2, 30);
    window.add(3, 40);
    assert_eq!(window.start_index(), 0);
    assert_eq!(window.get(0), 40);
    assert_eq!(window.get(1), 20);
    assert_eq!(window.get(2), 30);
    assert_eq!(window.get(3), 40);
    assert_eq!(window.get(255), 40);
    assert_eq!(window.get(254), 30);
}

#[test]
fn rolling_sum_saturates() {
    let mut window = CircularTimeWindow::new(Duration::Seconds(2), 0);
    window.add(0, u64::MAX);
    window.add(1, 5);
    assert_eq!(window.get_count(), u64::MAX);
    window.add(2, 1);
    assert_eq!(window.get_count(), 6);
}

#[test]
fn times_at_both_ends_of_the_range_are_handled() {
    let mut window = CircularTimeWindow::new(Duration::Seconds(255), i64::MIN);
    window.add(i64::MIN, 3);
    window.add(i64::MAX, 4);
    assert_eq!(window.get_count(), 4);
    assert_eq!(window.start_index(), 0);
    window.add(i64::MIN, 9);
    assert_eq!(window.get_count(), 9);
    assert_eq!(window.last_value_time(), i64::MIN);
}

#[test]
fn largest_ring_moves_by_its_full_length() {
    let mut window = CircularTimeWindow::new(Duration::Seconds(255), 0);
    window.add(0, 1);
    window.add(1, 2);
    window.add(255, 3);
    assert_eq!(window.start_index(), 0);
    assert_eq!(window.get(0), 3);
    assert_eq!(window.get(1), 2);
    assert_eq!(window.get_count(), 5);
    window.add(255 + 255, 8);
    assert_eq!(window.start_index(), 0);
    assert_eq!(window.get_count(), 8);
    window.add(255 + 255 + 256, 1);
    assert_eq!(window.start_index(), 0);
    assert_eq!(window.get_count(), 1);
}

#[test]
fn single_bucket_window_keeps_the_last_value() {
    let mut window = CircularTimeWindow::new(Duration::Weeks(1), 0);
    window.add(0, 5);
    window.add(604799, 6);
    assert_eq!(window.get_count(), 6);
    window.add(604799 + 604800, 2);
    assert_eq!(window.get_count(), 2);
    assert_eq!(window.start_index(), 0);
}

#[test]
fn rolling_sum_is_the_sum_of_the_last_buckets() {
    let count: i64 = 7;
    let mut window = CircularTimeWindow::new(Duration::Minutes(count as u8), 0);
    let mut by_bucket: Vec<(i64, u64)> = Vec::new();
    let mut bucket: i64 = 0;
    let mut last: i64 = 0;
    let mut seed: u64 = 0x2545F4914F6CDD1D;
    for _ in 0..2000 {
        seed ^= seed << 13;
        seed ^= seed >> 7;
        seed ^= seed << 17;
        let step = (seed % 700) as i64 - 100;
        let value = (seed >> 32) % 1000;
        let time = last + step;
        window.add(time, value);
        if time >= last {
            bucket += (time - last) / 60;
        }
        last = time;
        by_bucket.retain(|entry| entry.0 != bucket);
        by_bucket.push((bucket, value));
        let expected: u64 = by_bucket
            .iter()
            .filter(|entry| entry.0 > bucket - count)
            .map(|entry| entry.1)
            .sum();
        assert_eq!(window.get_count(), expected);
        assert_eq!(total(&window), expected);
        assert_eq!(window.get(0), value);
        assert_eq!(window.last_value_time(), time);
    }
}

#[test]
fn from_parts_accepts_a_ring_that_fits_the_duration() {
    let window =
        CircularTimeWindow::from_parts(2, vec![1, 2, 3], Duration::Days(3), 77).unwrap();
    assert_eq!(window.start_index(), 2);
    assert_eq!(window.get(0), 3);
    assert_eq!(window.get(1), 1);
    assert_eq!(window.get_count(), 6);
    assert_eq!(window.last_value_time(), 77);
}

#[test]
fn from_parts_refuses_a_ring_that_does_not_fit() {
    assert!(CircularTimeWindow::from_parts(0, vec![1, 2], Duration::Days(3), 0).is_none());
    assert!(CircularTimeWindow::from_parts(3, vec![1, 2, 3], Duration::Days(3), 0).is_none());
    assert!(CircularTimeWindow::from_parts(0, vec![], Duration::Days(0), 0).is_none());
}

#[test]
fn clone_copies_the_window() {
    let mut window = CircularTimeWindow::new(Duration::Seconds(3), 0);
    window.add(1, 4);
    let copy = window.clone();
    window.add(2, 5);
    assert_eq!(copy.window(), &vec![0u64, 4, 0]);
    assert_eq!(copy.start_index(), 1);
    assert_eq!(window.window(), &vec![0u64, 4, 5]);
}

#[test]
fn window_init_len_counts_every_bucket() {
    let window = CircularTimeWindow::new(Duration::Days(30), 0);
    assert_eq!(window.get_init_len(), 1 + 4 + 30 * 8 + 2 + 8);
    assert_eq!(window.get_init_len(), 255);
}
