use a_trade::{ClusterExposure, Condition, Direction, cluster_direction_clear, trigger_expired};

#[test]
fn section_61_expires_after_two_completed_five_minute_candles() {
    assert!(!trigger_expired(0));
    assert!(!trigger_expired(1));
    assert!(trigger_expired(2));
    assert!(trigger_expired(3));
}

#[test]
fn sections_68_70_same_cluster_opposing_direction_fails_closed() {
    let existing = [ClusterExposure {
        cluster_id: "NASDAQ_CLUSTER",
        direction: Direction::Long,
    }];

    assert_eq!(
        cluster_direction_clear("NASDAQ_CLUSTER", Direction::Short, &existing),
        Condition::False
    );
    assert_eq!(
        cluster_direction_clear("NASDAQ_CLUSTER", Direction::Long, &existing),
        Condition::True
    );
    assert_eq!(
        cluster_direction_clear("SP500_CLUSTER", Direction::Short, &existing),
        Condition::True
    );
    assert_eq!(
        cluster_direction_clear("", Direction::Long, &existing),
        Condition::Unknown
    );

    let invalid_existing = [ClusterExposure {
        cluster_id: " ",
        direction: Direction::Long,
    }];
    assert_eq!(
        cluster_direction_clear("NASDAQ_CLUSTER", Direction::Long, &invalid_existing),
        Condition::Unknown
    );
}
