use alphascout_agent::market::{
    age_minutes, age_minutes_at, first_pair, no_pair_error, select_new_pairs, select_new_pairs_at, take_latest,
    BaseToken,
};
use std::time::{SystemTime, UNIX_EPOCH};

fn wall_millis() -> i64 {
    SystemTime::now().duration_since(UNIX_EPOCH).unwrap().as_millis() as i64
}

#[test]
fn age_in_whole_minutes() {
    assert_eq!(age_minutes_at(Some(0), 120_000), Some(2));
    assert_eq!(age_minutes_at(Some(0), 119_999), Some(1));
    assert_eq!(age_minutes_at(Some(60_001), 0), Some(-1));
    assert_eq!(age_minutes_at(None, 5), None);
}

#[test]
fn age_difference_wraps() {
    assert_eq!(age_minutes_at(Some(i64::MIN), 0), Some(i64::MIN / 60_000));
}

#[test]
fn age_from_the_clock() {
    let created = wall_millis() - 180_000;
    assert_eq!(age_minutes(Some(created)), Some(3));
    assert_eq!(age_minutes(None), None);
}

#[test]
fn new_pairs_newest_first_ties_in_order() {
    let created = vec![Some(1_000), None, Some(5_000), Some(3_000), Some(5_000)];
    let now = 5_000 + 10 * 60_000;
    assert_eq!(select_new_pairs_at(&created, now, 60, 10), vec![2, 4, 3, 0]);
    assert_eq!(select_new_pairs_at(&created, now, 60, 2), vec![2, 4]);
    assert_eq!(select_new_pairs_at(&created, now, 5, 10), Vec::<usize>::new());
    assert_eq!(select_new_pairs_at(&created, now, 60, 0), Vec::<usize>::new());
}

#[test]
fn new_pairs_younger_than_window_and_not_future() {
    let now = 100 * 60_000;
    // Ages: 60 (not younger than 60), 59 (kept), 61 (too old),
    // -2 (created in the future), 0 (kept).
    let created = vec![
        Some(40 * 60_000),
        Some(41 * 60_000),
        Some(39 * 60_000),
        Some(102 * 60_000),
        Some(now),
    ];
    assert_eq!(select_new_pairs_at(&created, now, 60, 10), vec![4, 1]);
    // A pair exactly as old as the window is left out.
    assert_eq!(select_new_pairs_at(&vec![Some(0)], 3_600_000, 60, 1), Vec::<usize>::new());
}

#[test]
fn larger_cap_only_appends() {
    let created = vec![Some(10), Some(50), Some(30), Some(50), Some(20), None];
    let now = 60_000;
    let full = select_new_pairs_at(&created, now, 60, 10);
    assert_eq!(full, vec![1, 3, 2, 4, 0]);
    for cap in 0..7 {
        let part = select_new_pairs_at(&created, now, 60, cap);
        assert_eq!(part, full[..cap.min(full.len())].to_vec());
    }
}

#[test]
fn missing_pair_error() {
    assert_eq!(no_pair_error("base", "0xabc"), "no pair found for base/0xabc");
}

#[test]
fn new_pairs_from_the_clock() {
    let now = wall_millis();
    let created = vec![Some(now - 5 * 60_000), Some(now - 600 * 60_000), None, Some(now - 60_000)];
    assert_eq!(select_new_pairs(&created, 60, 10), vec![3, 0]);
}

#[test]
fn first_listed_pair() {
    assert_eq!(first_pair(Some(vec![7, 8])), Some(7));
    assert_eq!(first_pair(Some(Vec::<i32>::new())), None);
    assert_eq!(first_pair::<i32>(None), None);
}

#[test]
fn latest_keeps_ten() {
    let v: Vec<u32> = (0..15).collect();
    assert_eq!(take_latest(v), (0..10).collect::<Vec<u32>>());
    assert_eq!(take_latest(vec![1, 2, 3]), vec![1, 2, 3]);
}

#[test]
fn display_name_of_token() {
    let t = BaseToken { name: "Pepe".to_string(), symbol: "PEPE".to_string(), address: None };
    assert_eq!(t.display_name(), "Pepe (PEPE)");
}
