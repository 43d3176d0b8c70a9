use balanced_bridge::address::AccountKey;
use balanced_bridge::asset_manager::errors::AssetManagerError;
use balanced_bridge::asset_manager::instructions::{
    calculate_limit, configure_rate_limit, get_withdraw_limit, release, verify_withdraw,
};
use balanced_bridge::asset_manager::states::TokenState;

fn key(byte: u8) -> AccountKey {
    AccountKey { bytes: [byte; 32] }
}

fn limit(period: u64, percentage: u64, last_update: i64, current_limit: u64) -> TokenState {
    TokenState { token: key(1), period, percentage, last_update, current_limit }
}

fn same(a: &TokenState, b: &TokenState) -> bool {
    a.token.bytes == b.token.bytes
        && a.period == b.period
        && a.percentage == b.percentage
        && a.last_update == b.last_update
        && a.current_limit == b.current_limit
}

#[test]
fn a_period_of_zero_means_no_floor() {
    let state = limit(0, 5000, 0, 777);
    assert_eq!(calculate_limit(&state, 1000, 10), 0);
    assert_eq!(calculate_limit(&state, u64::MAX, i64::MAX), 0);
}

#[test]
fn the_floor_follows_the_formula() {
    // reserve 100, releasable 900, 250 of 1000 seconds: released 225, watermark 600 -> 375
    let state = limit(1000, 1000, 0, 600);
    assert_eq!(calculate_limit(&state, 1000, 250), 375);
    // nothing elapsed: the watermark stands
    assert_eq!(calculate_limit(&state, 1000, 0), 600);
    // the watermark is capped by the balance
    let high = limit(1000, 1000, 0, 5000);
    assert_eq!(calculate_limit(&high, 1000, 0), 1000);
    // and never drops below the reserve
    assert_eq!(calculate_limit(&state, 1000, 999), 100);
}

#[test]
fn divisions_round_down() {
    // reserve floor(999 * 3333 / 10000) = 332, releasable 667
    let state = limit(7, 3333, 0, 900);
    // released floor(667 * 3 / 7) = 285, watermark 900 -> 615
    assert_eq!(calculate_limit(&state, 999, 3), 615);
}

#[test]
fn elapsed_time_is_clamped_to_one_period() {
    let state = limit(1000, 1000, 0, 950);
    assert_eq!(calculate_limit(&state, 1000, 1000), 100);
    assert_eq!(calculate_limit(&state, 1000, 1_000_000), 100);
    assert_eq!(calculate_limit(&state, 1000, i64::MAX), 100);
}

#[test]
fn a_clock_that_ran_backwards_counts_as_a_long_wait() {
    let state = limit(1000, 1000, 500, 950);
    assert_eq!(calculate_limit(&state, 1000, 499), 100);
    let extreme = limit(1000, 1000, i64::MAX, 950);
    assert_eq!(calculate_limit(&extreme, 1000, i64::MIN), 100);
}

#[test]
fn a_wait_longer_than_64_signed_bits_counts_in_full() {
    // the clock went from the least to the greatest reading: 2^64 - 1 seconds
    let state = limit(u64::MAX, 0, i64::MIN, 1);
    assert_eq!(calculate_limit(&state, 1, i64::MAX), 0);
    let reserved = limit(u64::MAX, 2500, i64::MIN, 4000);
    assert_eq!(calculate_limit(&reserved, 4000, i64::MAX), 1000);
    // one second less is not yet the full period
    assert_eq!(calculate_limit(&reserved, 4000, i64::MAX - 1), 1001);
}

#[test]
fn the_floor_lies_between_reserve_and_balance() {
    let balances = [0u64, 1, 999, 1000, 12345, u64::MAX / 2, u64::MAX];
    let percentages = [0u64, 1, 1000, 9999, 10000];
    let watermarks = [0u64, 50, 5000, u64::MAX];
    for &balance in &balances {
        for &percentage in &percentages {
            for &watermark in &watermarks {
                for &now in &[0i64, 1, 500, 1000, 5000] {
                    let state = limit(1000, percentage, 0, watermark);
                    let reserve = ((balance as u128 * percentage as u128) / 10000) as u64;
                    let floor = calculate_limit(&state, balance, now);
                    assert!(reserve <= floor && floor <= balance);
                }
            }
        }
    }
}

#[test]
fn large_balances_do_not_overflow() {
    let state = limit(u64::MAX, 10000, 0, u64::MAX);
    assert_eq!(calculate_limit(&state, u64::MAX, 0), u64::MAX);
    let half = limit(u64::MAX, 5000, 0, 0);
    assert_eq!(calculate_limit(&half, u64::MAX, i64::MAX), u64::MAX / 2);
}

#[test]
fn after_a_full_period_the_floor_is_the_reserve() {
    let mut state = limit(1000, 2500, 100, 0);
    verify_withdraw(&mut state, 300, 4000, 100).unwrap();
    assert_eq!(state.current_limit, 1000);
    assert_eq!(calculate_limit(&state, 4000, 1100), 1000);
    let mut high = limit(1000, 2500, 100, 3900);
    verify_withdraw(&mut high, 50, 4000, 100).unwrap();
    assert_eq!(high.current_limit, 3900);
    assert_eq!(calculate_limit(&high, 4000, 600), 2400);
    assert_eq!(calculate_limit(&high, 4000, 1100), 1000);
}

#[test]
fn configure_then_withdraw_at_the_boundary() {
    let mut state = limit(0, 0, 0, 0);
    configure_rate_limit(&mut state, key(9), 1000, 1000, 50).unwrap();
    assert_eq!(state.current_limit, 0);
    assert_eq!(state.last_update, 50);
    assert_eq!(calculate_limit(&state, 1000, 50), 100);
    // 1000 - 850 = 150 >= 100: admitted
    let mut admitted = state;
    assert!(verify_withdraw(&mut admitted, 850, 1000, 50).is_ok());
    assert_eq!(admitted.current_limit, 100);
    assert_eq!(admitted.last_update, 50);
    // 1000 - 900 = 100 >= 100: admitted, exactly at the floor
    let mut edge = state;
    assert!(verify_withdraw(&mut edge, 900, 1000, 50).is_ok());
    // 1000 - 901 = 99 < 100: refused
    let mut refused = state;
    assert_eq!(
        verify_withdraw(&mut refused, 901, 1000, 50),
        Err(AssetManagerError::ExceedsWithdrawLimit)
    );
    assert!(same(&refused, &state));
}

#[test]
fn a_refused_withdrawal_changes_nothing() {
    let before = limit(1000, 1000, 10, 800);
    let mut state = before;
    assert_eq!(
        verify_withdraw(&mut state, 300, 1000, 20),
        Err(AssetManagerError::ExceedsWithdrawLimit)
    );
    assert!(same(&state, &before));
    assert_eq!(
        verify_withdraw(&mut state, 1001, 1000, 20),
        Err(AssetManagerError::ExceedsWithdrawLimit)
    );
    assert!(same(&state, &before));
}

#[test]
fn an_admitted_withdrawal_advances_the_limit_once() {
    let mut state = limit(1000, 1000, 0, 600);
    assert!(verify_withdraw(&mut state, 100, 1000, 250).is_ok());
    assert_eq!(state.current_limit, 375);
    assert_eq!(state.last_update, 250);
    assert_eq!(state.period, 1000);
    assert_eq!(state.percentage, 1000);
    assert_eq!(state.token.bytes, [1u8; 32]);
}

#[test]
fn more_than_the_balance_is_refused_even_without_a_floor() {
    let mut state = limit(0, 0, 0, 0);
    assert_eq!(
        verify_withdraw(&mut state, 11, 10, 5),
        Err(AssetManagerError::ExceedsWithdrawLimit)
    );
    assert!(verify_withdraw(&mut state, 10, 10, 5).is_ok());
    assert_eq!(state.last_update, 5);
}

#[test]
fn release_checks_the_balance_before_the_limit() {
    let before = limit(1000, 1000, 0, 0);
    let mut state = before;
    assert_eq!(release(&mut state, 1001, 1000, 0), Err(AssetManagerError::InsufficientBalance));
    assert!(same(&state, &before));
    assert_eq!(release(&mut state, 950, 1000, 0), Err(AssetManagerError::ExceedsWithdrawLimit));
    assert!(same(&state, &before));
    assert!(release(&mut state, 900, 1000, 7).is_ok());
    assert_eq!(state.current_limit, 100);
    assert_eq!(state.last_update, 7);
}

#[test]
fn configure_rejects_more_than_the_whole() {
    let before = limit(5, 5, 5, 5);
    let mut state = before;
    assert_eq!(
        configure_rate_limit(&mut state, key(2), 10, 10001, 1),
        Err(AssetManagerError::PercentageTooHigh)
    );
    assert!(same(&state, &before));
    assert!(configure_rate_limit(&mut state, key(2), 10, 10000, 1).is_ok());
    assert_eq!(state.token.bytes, [2u8; 32]);
    assert_eq!(state.period, 10);
    assert_eq!(state.percentage, 10000);
    assert_eq!(state.last_update, 1);
    assert_eq!(state.current_limit, 0);
}

#[test]
fn get_withdraw_limit_is_the_floor() {
    let state = limit(1000, 1000, 0, 600);
    assert_eq!(get_withdraw_limit(&state, 1000, 250), 375);
}
