use ghostd::state::State;
use std::time::Duration;

#[test]
fn new_state_holds_empty_text() {
    let s = State::new(Duration::from_secs(5));
    assert_eq!(s.get(), "");
}

#[test]
fn get_after_set_returns_written_text() {
    let mut s = State::new(Duration::from_secs(5));
    s.set("hello".to_string());
    assert_eq!(s.get(), "hello");
    s.set("again".to_string());
    assert_eq!(s.get(), "again");
}

#[test]
fn expire_clears_stamped_state() {
    let mut s = State::new(Duration::from_secs(5));
    s.set("hello".to_string());
    s.expire_after(u128::MAX);
    assert_eq!(s.get(), "");
}

#[test]
fn expire_without_expiry_keeps_text() {
    let mut s = State::new(Duration::from_secs(5));
    s.set("hello".to_string());
    s.expire_after(0);
    assert_eq!(s.get(), "hello");
}

#[test]
fn expire_on_unstamped_state_keeps_it_empty() {
    let mut s = State::new(Duration::from_secs(5));
    s.expire_after(u128::MAX);
    assert_eq!(s.get(), "");
}

#[test]
fn clear_if_expired_with_zero_ttl_clears() {
    let mut s = State::new(Duration::from_secs(0));
    s.set("gone".to_string());
    s.clear_if_expired();
    assert_eq!(s.get(), "");
}

#[test]
fn clear_if_expired_before_ttl_keeps_text() {
    let mut s = State::new(Duration::from_secs(3600));
    s.set("kept".to_string());
    s.clear_if_expired();
    assert_eq!(s.get(), "kept");
}

#[test]
fn clear_if_expired_on_fresh_state_keeps_it_empty() {
    let mut s = State::new(Duration::from_secs(0));
    s.clear_if_expired();
    assert_eq!(s.get(), "");
}

#[test]
fn cleared_state_can_be_written_again() {
    let mut s = State::new(Duration::from_secs(0));
    s.set("first".to_string());
    s.clear_if_expired();
    s.set("second".to_string());
    assert_eq!(s.get(), "second");
}

#[test]
fn expire_after_clears_exactly_at_ttl() {
    let mut s = State::new(Duration::from_nanos(1000));
    s.set("hello".to_string());
    s.expire_after(999);
    assert_eq!(s.get(), "hello");
    s.expire_after(1000);
    assert_eq!(s.get(), "");
}

#[test]
fn zero_ttl_clears_at_zero_elapsed() {
    let mut s = State::new(Duration::from_secs(0));
    s.set("hello".to_string());
    s.expire_after(0);
    assert_eq!(s.get(), "");
}

#[test]
fn ttl_is_counted_in_nanoseconds() {
    let mut s = State::new(Duration::from_millis(2));
    s.set("hello".to_string());
    s.expire_after(1_999_999);
    assert_eq!(s.get(), "hello");
    s.expire_after(2_000_000);
    assert_eq!(s.get(), "");
}

#[test]
fn set_at_stores_and_stamps() {
    let mut s = State::new(Duration::from_secs(5));
    let now = tokio::time::Instant::now();
    s.set_at("stamped".to_string(), now);
    assert_eq!(s.get(), "stamped");
    s.set_at("later".to_string(), now);
    assert_eq!(s.get(), "later");
}

#[test]
fn clear_if_expired_at_measures_from_stamp() {
    let mut s = State::new(Duration::from_secs(10));
    let t0 = tokio::time::Instant::now();
    s.set_at("hello".to_string(), t0);
    s.clear_if_expired_at(t0 + Duration::from_secs(9));
    assert_eq!(s.get(), "hello");
    s.clear_if_expired_at(t0 + Duration::from_secs(10));
    assert_eq!(s.get(), "");
}

#[test]
fn clear_if_expired_at_counts_from_latest_write() {
    let mut s = State::new(Duration::from_secs(10));
    let t0 = tokio::time::Instant::now();
    s.set_at("first".to_string(), t0);
    s.set_at("second".to_string(), t0 + Duration::from_secs(5));
    s.clear_if_expired_at(t0 + Duration::from_secs(12));
    assert_eq!(s.get(), "second");
    s.clear_if_expired_at(t0 + Duration::from_secs(15));
    assert_eq!(s.get(), "");
}

#[test]
fn clear_if_expired_at_zero_ttl_clears_at_stamp() {
    let mut s = State::new(Duration::from_secs(0));
    let t0 = tokio::time::Instant::now();
    s.set_at("brief".to_string(), t0);
    s.clear_if_expired_at(t0);
    assert_eq!(s.get(), "");
}
