use hazy_transport::Decider;
use hazy_transport::DeciderConfig;
use hazy_transport::Decision;

#[test]
fn normal_decider() {
    let config = DeciderConfig {
        unaffected: 90,
        drop: 1,
        tamper: 0,
        duplicate: 3,
        reorder: 6,
    };

    let decider = Decider::new(config).expect("config should be valid");
    assert_eq!(decider.decide(89), Some(Decision::Unaffected));
    assert_eq!(decider.decide(90), Some(Decision::Drop));
    assert_eq!(decider.decide(91), Some(Decision::Duplicate)); // Tamper has zero chance, and should not be in the range
}

#[test]
fn decider_range_edges() {
    let config = DeciderConfig {
        unaffected: 90,
        drop: 1,
        tamper: 0,
        duplicate: 3,
        reorder: 6,
    };

    let decider = Decider::new(config).expect("config should be valid");
    assert_eq!(decider.total(), 100);
    assert_eq!(decider.decide(0), Some(Decision::Unaffected));
    assert_eq!(decider.decide(93), Some(Decision::Duplicate));
    assert_eq!(decider.decide(94), Some(Decision::Reorder));
    assert_eq!(decider.decide(99), Some(Decision::Reorder));
    assert_eq!(decider.decide(100), None);
}

#[test]
fn zero_total_weight_is_rejected() {
    let config = DeciderConfig {
        unaffected: 0,
        drop: 0,
        tamper: 0,
        duplicate: 0,
        reorder: 0,
    };

    assert!(Decider::new(config).is_none());
}

#[test]
fn nonzero_tamper_weight_still_makes_a_decider() {
    let config = DeciderConfig {
        unaffected: 0,
        drop: 0,
        tamper: 2,
        duplicate: 0,
        reorder: 0,
    };

    let decider = Decider::new(config).expect("a positive total is enough for a decider");
    assert_eq!(decider.decide(1), Some(Decision::Tamper));
}
