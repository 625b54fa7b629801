use git_notifier::throttle::Throttle;

#[test]
fn budget_of_two_allows_two_then_refuses() {
    let mut t = Throttle::new(1_000, 2);
    assert!(t.should_allow_at(0));
    assert!(t.should_allow_at(0));
    assert!(!t.should_allow_at(0));
}

#[test]
fn exactly_budget_calls_pass_within_window() {
    let mut t = Throttle::new(100, 3);
    let answers: Vec<bool> = (0..6u128).map(|i| t.should_allow_at(i * 10)).collect();
    assert_eq!(answers, vec![true, true, true, false, false, false]);
}

#[test]
fn window_end_is_inclusive() {
    let mut t = Throttle::new(100, 0);
    assert!(!t.should_allow_at(100));
    assert!(t.should_allow_at(101));
}

#[test]
fn reset_call_is_free() {
    let mut t = Throttle::new(100, 2);
    assert!(t.should_allow_at(0));
    assert!(t.should_allow_at(0));
    assert!(!t.should_allow_at(50));
    assert!(t.should_allow_at(200));
    assert!(t.should_allow_at(210));
    assert!(t.should_allow_at(220));
    assert!(!t.should_allow_at(230));
}

#[test]
fn reset_allows_even_with_zero_budget() {
    let mut t = Throttle::new(10, 0);
    assert!(!t.should_allow_at(5));
    assert!(t.should_allow_at(11));
    assert!(!t.should_allow_at(12));
    assert!(t.should_allow_at(22));
}

#[test]
fn new_window_starts_at_reset_time() {
    let mut t = Throttle::new(100, 1);
    assert!(t.should_allow_at(0));
    assert!(t.should_allow_at(150));
    assert!(t.should_allow_at(160));
    assert!(!t.should_allow_at(250));
    assert!(t.should_allow_at(251));
}

#[test]
fn live_clock_respects_budget() {
    let mut t = Throttle::new(3_600_000_000_000, 2);
    assert!(t.should_allow());
    assert!(t.should_allow());
    assert!(!t.should_allow());
}
