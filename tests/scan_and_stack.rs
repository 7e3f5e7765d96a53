use wifi_station::scan::cap_scan_results;
use wifi_station::stack::{stack_seed, SOCKET_CAPACITY};
use wifi_station::supervisor::SCAN_MAX;

#[test]
fn scan_results_capped_at_maximum() {
    let found: Vec<u32> = (0..25).collect();
    let kept = cap_scan_results(found, SCAN_MAX);
    assert_eq!(kept, (0..10).collect::<Vec<u32>>());
}

#[test]
fn scan_results_under_maximum_kept_whole() {
    assert_eq!(cap_scan_results(vec![7u8, 3, 9], 10), vec![7u8, 3, 9]);
    assert_eq!(cap_scan_results(Vec::<u8>::new(), 10), Vec::<u8>::new());
    assert_eq!(cap_scan_results(vec![1u8; 10], 10).len(), 10);
}

#[test]
fn scan_results_zero_maximum() {
    assert!(cap_scan_results(vec![1u8, 2], 0).is_empty());
}

#[test]
fn seed_joins_two_words() {
    assert_eq!(stack_seed(0x1234_5678, 0x9abc_def0), 0x9abc_def0_1234_5678);
    assert_eq!(stack_seed(0, 0), 0);
    assert_eq!(stack_seed(u32::MAX, u32::MAX), u64::MAX);
    assert_eq!(stack_seed(5, 0), 5);
    assert_eq!(stack_seed(0, 1), 1u64 << 32);
}

#[test]
fn socket_arena_capacity() {
    assert_eq!(SOCKET_CAPACITY, 3);
}
