use bigfishalert::account::{
    same_wallet, BIG_FISH_POINTS, BIG_FISH_THRESHOLD, MAX_SCORE, REGULAR_POINTS,
};
use bigfishalert::{ErrorCode, FisherAccount, FisherRank, FisherStats, WalletKey};

fn wallet(tag: u8) -> WalletKey {
    let mut key = [0u8; 32];
    key[0] = tag;
    key[31] = tag.wrapping_mul(7);
    key
}

fn account_with(total: u64, big: u64, reputation: u64) -> FisherAccount {
    FisherAccount {
        wallet: wallet(9),
        total_catches: total,
        big_fish_spotted: big,
        reputation,
        rank: FisherRank::from_reputation(reputation),
    }
}

#[test]
fn constants_of_the_scoring_policy() {
    assert_eq!(BIG_FISH_THRESHOLD, 70);
    assert_eq!(MAX_SCORE, 100);
    assert_eq!(BIG_FISH_POINTS, 50);
    assert_eq!(REGULAR_POINTS, 10);
}

#[test]
fn new_account_is_zeroed() {
    let account = FisherAccount::new(wallet(1));
    assert_eq!(account.wallet, wallet(1));
    assert_eq!(account.total_catches, 0);
    assert_eq!(account.big_fish_spotted, 0);
    assert_eq!(account.reputation, 0);
    assert_eq!(account.rank, FisherRank::Minnow);
    assert!(account.is_consistent());
}

#[test]
fn big_fish_catch_awards_fifty() {
    let mut account = FisherAccount::new(wallet(1));
    assert_eq!(account.apply_catch(85), Ok(()));
    assert_eq!(account.total_catches, 1);
    assert_eq!(account.big_fish_spotted, 1);
    assert_eq!(account.reputation, 50);
    assert_eq!(account.rank, FisherRank::Minnow);
    assert_eq!(account.wallet, wallet(1));
}

#[test]
fn regular_catch_awards_ten() {
    let mut account = FisherAccount::new(wallet(1));
    assert_eq!(account.apply_catch(40), Ok(()));
    assert_eq!(account.total_catches, 1);
    assert_eq!(account.big_fish_spotted, 0);
    assert_eq!(account.reputation, 10);
    assert_eq!(account.rank, FisherRank::Minnow);
}

#[test]
fn score_at_threshold_is_regular() {
    let mut account = FisherAccount::new(wallet(2));
    assert_eq!(account.apply_catch(70), Ok(()));
    assert_eq!(account.big_fish_spotted, 0);
    assert_eq!(account.reputation, 10);
}

#[test]
fn score_above_threshold_is_big_fish() {
    let mut account = FisherAccount::new(wallet(2));
    assert_eq!(account.apply_catch(71), Ok(()));
    assert_eq!(account.big_fish_spotted, 1);
    assert_eq!(account.reputation, 50);
}

#[test]
fn lowest_and_highest_scores_are_accepted() {
    let mut account = FisherAccount::new(wallet(2));
    assert_eq!(account.apply_catch(0), Ok(()));
    assert_eq!(account.reputation, 10);
    assert_eq!(account.apply_catch(100), Ok(()));
    assert_eq!(account.reputation, 60);
    assert_eq!(account.total_catches, 2);
    assert_eq!(account.big_fish_spotted, 1);
}

#[test]
fn score_above_hundred_is_invalid() {
    for score in [101u8, 150, 255] {
        let mut account = account_with(4, 2, 120);
        let before = account;
        assert_eq!(account.apply_catch(score), Err(ErrorCode::InvalidInput));
        assert_eq!(account, before);
    }
}

#[test]
fn rank_follows_reputation_across_thresholds() {
    let mut account = account_with(10, 0, 100);
    assert_eq!(account.rank, FisherRank::Minnow);
    assert_eq!(account.apply_catch(10), Ok(()));
    assert_eq!(account.reputation, 110);
    assert_eq!(account.rank, FisherRank::Fisher);

    let mut account = account_with(10, 9, 460);
    assert_eq!(account.apply_catch(99), Ok(()));
    assert_eq!(account.reputation, 510);
    assert_eq!(account.rank, FisherRank::Captain);

    let mut account = account_with(100, 0, 1000);
    assert_eq!(account.apply_catch(1), Ok(()));
    assert_eq!(account.reputation, 1010);
    assert_eq!(account.rank, FisherRank::Admiral);
}

#[test]
fn reputation_overflow_is_rejected_and_changes_nothing() {
    let mut account = account_with(7, 3, u64::MAX - 5);
    let before = account;
    assert_eq!(account.apply_catch(80), Err(ErrorCode::Overflow));
    assert_eq!(account, before);
    assert_eq!(account.total_catches, 7);
    assert_eq!(account.big_fish_spotted, 3);
    assert_eq!(account.reputation, u64::MAX - 5);
    assert_eq!(account.rank, FisherRank::Admiral);
}

#[test]
fn regular_catch_overflowing_reputation_is_rejected() {
    let mut account = account_with(7, 3, u64::MAX - 5);
    let before = account;
    assert_eq!(account.apply_catch(20), Err(ErrorCode::Overflow));
    assert_eq!(account, before);
}

#[test]
fn reputation_may_reach_the_maximum() {
    let mut account = account_with(7, 3, u64::MAX - 50);
    assert_eq!(account.apply_catch(80), Ok(()));
    assert_eq!(account.reputation, u64::MAX);
    assert_eq!(account.total_catches, 8);
    assert_eq!(account.big_fish_spotted, 4);
    assert_eq!(account.rank, FisherRank::Admiral);

    let mut account = account_with(7, 3, u64::MAX - 49);
    let before = account;
    assert_eq!(account.apply_catch(80), Err(ErrorCode::Overflow));
    assert_eq!(account, before);

    let mut account = account_with(7, 3, u64::MAX - 10);
    assert_eq!(account.apply_catch(5), Ok(()));
    assert_eq!(account.reputation, u64::MAX);
}

#[test]
fn catch_counter_overflow_is_rejected() {
    let mut account = account_with(u64::MAX, 0, 0);
    let before = account;
    assert_eq!(account.apply_catch(10), Err(ErrorCode::Overflow));
    assert_eq!(account, before);
    assert_eq!(account.apply_catch(90), Err(ErrorCode::Overflow));
    assert_eq!(account, before);
}

#[test]
fn big_fish_counter_overflow_is_rejected() {
    let mut account = account_with(5, u64::MAX, 0);
    let before = account;
    assert_eq!(account.apply_catch(90), Err(ErrorCode::Overflow));
    assert_eq!(account, before);
    assert_eq!(account.apply_catch(10), Ok(()));
    assert_eq!(account.total_catches, 6);
    assert_eq!(account.big_fish_spotted, u64::MAX);
    assert_eq!(account.reputation, 10);
}

#[test]
fn invalid_score_is_reported_before_overflow() {
    let mut account = account_with(u64::MAX, 0, u64::MAX);
    assert_eq!(account.apply_catch(101), Err(ErrorCode::InvalidInput));
}

#[test]
fn stats_copy_the_record() {
    let account = account_with(12, 5, 640);
    assert_eq!(
        account.stats(),
        FisherStats {
            wallet: wallet(9),
            total_catches: 12,
            big_fish_spotted: 5,
            reputation: 640,
            rank: FisherRank::Captain,
        }
    );
}

#[test]
fn consistency_check() {
    assert!(account_with(3, 3, 150).is_consistent());
    assert!(account_with(3, 0, 0).is_consistent());
    assert!(!account_with(3, 4, 150).is_consistent());
    let mut account = account_with(3, 1, 150);
    account.rank = FisherRank::Minnow;
    assert!(!account.is_consistent());
}

#[test]
fn big_fish_never_exceed_catches() {
    let mut account = FisherAccount::new(wallet(3));
    for round in 0u32..200 {
        let score = ((round * 37) % 101) as u8;
        assert_eq!(account.apply_catch(score), Ok(()));
        assert!(account.big_fish_spotted <= account.total_catches);
        assert!(account.is_consistent());
    }
    assert_eq!(account.total_catches, 200);
}

#[test]
fn same_wallet_compares_every_byte() {
    let a = wallet(4);
    let mut b = a;
    assert!(same_wallet(&a, &b));
    b[31] ^= 1;
    assert!(!same_wallet(&a, &b));
    let mut c = a;
    c[0] ^= 0x80;
    assert!(!same_wallet(&a, &c));
    let mut d = a;
    d[17] = 200;
    assert!(!same_wallet(&a, &d));
    assert!(same_wallet(&[0u8; 32], &[0u8; 32]));
}
