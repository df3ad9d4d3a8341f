use std::time::Duration;
use throttle_ro::ThrottlesService;

fn service(limit: u32) -> ThrottlesService {
    ThrottlesService::new("127.0.0.1".to_string(), limit, Duration::from_secs(60), "test_")
}

#[test]
fn key_is_prefix_then_identity() {
    assert_eq!(service(3).key(), "test_127.0.0.1");
    let empty = ThrottlesService::new(String::new(), 3, Duration::from_secs(60), "");
    assert_eq!(empty.key(), "");
}

#[test]
fn fresh_identity_is_allowed() {
    assert!(service(3).allows(None));
    assert!(service(1).allows(None));
}

#[test]
fn zero_limit_blocks_from_the_start() {
    assert!(!service(0).allows(None));
    assert!(!service(0).allows(Some(0)));
}

#[test]
fn blocked_exactly_at_the_limit() {
    let s = service(3);
    assert!(s.allows(Some(0)));
    assert!(s.allows(Some(2)));
    assert!(!s.allows(Some(3)));
    assert!(!s.allows(Some(4)));
    assert!(!s.allows(Some(u32::MAX)));
    assert!(service(u32::MAX).allows(Some(u32::MAX - 1)));
}

#[test]
fn next_count_adds_one() {
    assert_eq!(ThrottlesService::next_count(None), 1);
    assert_eq!(ThrottlesService::next_count(Some(1)), 2);
    assert_eq!(ThrottlesService::next_count(Some(41)), 42);
}

#[test]
fn next_count_holds_a_full_counter() {
    assert_eq!(ThrottlesService::next_count(Some(u32::MAX)), u32::MAX);
}

#[test]
fn n_hits_count_n() {
    let mut stored: Option<u32> = None;
    for _ in 0..3 {
        stored = Some(ThrottlesService::next_count(stored));
    }
    assert_eq!(stored, Some(3));
    assert!(!service(3).allows(stored));
}

#[test]
fn missing_expiry_gives_the_window() {
    assert_eq!(service(3).expire_or_window(None), Duration::from_secs(60));
}

#[test]
fn remaining_expiry_is_kept() {
    assert_eq!(service(3).expire_or_window(Some(Duration::from_millis(1500))), Duration::from_millis(1500));
}
