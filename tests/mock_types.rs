use pink::args::Args;
use pink::mock_types::{AccountData, NoAccountStore, NoCurrency, NoImbalance, ENOUGH};

#[test]
fn no_currency_reports_plenty_and_nothing_reserved() {
    let who = [1u8; 32];
    assert_eq!(ENOUGH, u128::MAX / 2);
    assert_eq!(NoCurrency::total_balance(&who), ENOUGH);
    assert_eq!(NoCurrency::free_balance(&who), ENOUGH);
    assert_eq!(NoCurrency::total_issuance(), ENOUGH);
    assert_eq!(NoCurrency::minimum_balance(), 0);
    assert!(!NoCurrency::can_slash(&who, 5));
    assert!(NoCurrency::can_reserve(&who, 5));
    assert_eq!(NoCurrency::reserved_balance(&who), 0);
    assert_eq!(NoCurrency::unreserve(&who, 5), 0);
    assert_eq!(NoCurrency::slash(&who, 5), (NoImbalance, 0));
    assert_eq!(NoCurrency::transfer(&who, &[2u8; 32], 5), Ok(()));
    assert_eq!(NoCurrency::repatriate_reserved(&who, &[2u8; 32], 5), Ok(0));
}

#[test]
fn no_imbalance_is_zero() {
    assert_eq!(NoImbalance::zero().peek(), 0);
    assert_eq!(NoImbalance.split(10), (NoImbalance, NoImbalance));
    assert_eq!(NoImbalance.drop_zero(), Ok(()));
}

#[test]
fn no_account_store_reads_plenty() {
    assert_eq!(
        NoAccountStore::get(&[0u8; 32]),
        AccountData { free: ENOUGH, reserved: ENOUGH, misc_frozen: ENOUGH, fee_frozen: ENOUGH }
    );
}

#[test]
fn args_defaults() {
    let a = Args::default();
    assert_eq!(a.node_uri, "ws://localhost:9944");
    assert_eq!(a.start_at, 413895);
    assert_eq!(a.bind_addr, "127.0.0.1:8080");
    assert_eq!(a.persist_events_to, "");
    assert_eq!(a.assume_finalized, 0);
    assert_eq!(a.checkpoint_interval, 100000);
    assert_eq!(a.restore_from, None);
}
