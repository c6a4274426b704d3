use bigfishalert::FisherRank;

#[test]
fn rank_boundaries() {
    assert_eq!(FisherRank::from_reputation(0), FisherRank::Minnow);
    assert_eq!(FisherRank::from_reputation(100), FisherRank::Minnow);
    assert_eq!(FisherRank::from_reputation(101), FisherRank::Fisher);
    assert_eq!(FisherRank::from_reputation(500), FisherRank::Fisher);
    assert_eq!(FisherRank::from_reputation(501), FisherRank::Captain);
    assert_eq!(FisherRank::from_reputation(1000), FisherRank::Captain);
    assert_eq!(FisherRank::from_reputation(1001), FisherRank::Admiral);
}

#[test]
fn rank_of_extreme_reputation() {
    assert_eq!(FisherRank::from_reputation(1), FisherRank::Minnow);
    assert_eq!(FisherRank::from_reputation(u64::MAX - 5), FisherRank::Admiral);
    assert_eq!(FisherRank::from_reputation(u64::MAX), FisherRank::Admiral);
}

#[test]
fn rank_is_deterministic() {
    for reputation in [0u64, 50, 100, 101, 333, 500, 501, 1000, 1001, 1 << 40] {
        assert_eq!(
            FisherRank::from_reputation(reputation),
            FisherRank::from_reputation(reputation)
        );
    }
}

fn tier(rank: FisherRank) -> u8 {
    match rank {
        FisherRank::Minnow => 0,
        FisherRank::Fisher => 1,
        FisherRank::Captain => 2,
        FisherRank::Admiral => 3,
    }
}

#[test]
fn rank_never_falls_as_reputation_grows() {
    let mut previous = tier(FisherRank::from_reputation(0));
    for reputation in 1u64..=1200 {
        let current = tier(FisherRank::from_reputation(reputation));
        assert!(previous <= current, "rank fell at reputation {}", reputation);
        previous = current;
    }
    assert_eq!(previous, 3);
}

#[test]
fn rank_changes_exactly_at_the_thresholds() {
    let mut changes = vec![];
    for reputation in 1u64..=2000 {
        if FisherRank::from_reputation(reputation) != FisherRank::from_reputation(reputation - 1) {
            changes.push(reputation);
        }
    }
    assert_eq!(changes, vec![101, 501, 1001]);
}

#[test]
fn rank_names() {
    assert_eq!(FisherRank::Minnow.to_string(), "Minnow");
    assert_eq!(FisherRank::Fisher.to_string(), "Fisher");
    assert_eq!(FisherRank::Captain.to_string(), "Captain");
    assert_eq!(FisherRank::Admiral.to_string(), "Admiral");
}

#[test]
fn rank_clone_and_equality() {
    let rank = FisherRank::Captain;
    let copy = rank.clone();
    assert_eq!(rank, copy);
    assert_ne!(rank, FisherRank::Admiral);
}
