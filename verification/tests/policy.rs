use ico_hook::errors::PolicyError;
use ico_hook::policy::{
    holding_units, is_window_open, minute_of_day, validate_trading_hours, PolicyRegistry,
};

const OWNER: u64 = 7;
const ASSET: u64 = 2;
const GATING_ASSET: u64 = 3;
const WALLET: u64 = 100;
const OTHER_WALLET: u64 = 101;

fn registry(open: Option<u16>, close: Option<u16>, max: u64, min: u64) -> PolicyRegistry {
    PolicyRegistry::new(OWNER, ASSET, GATING_ASSET, open, close, max, min)
}

/// Raw holding-account data of the given length whose balance field
/// (bytes 64..72, little-endian) carries `balance`.
fn holding_data(len: usize, balance: u64) -> Vec<u8> {
    let mut data = vec![0u8; len];
    data[64..72].copy_from_slice(&balance.to_le_bytes());
    data
}

#[test]
fn new_registry_starts_with_gates_off() {
    let reg = registry(Some(540), Some(1020), 100, 10);
    let config = reg.config();
    assert_eq!(config.owner, OWNER);
    assert_eq!(config.asset, ASSET);
    assert_eq!(config.gating_asset, GATING_ASSET);
    assert!(!config.whitelist_enabled);
    assert!(!config.trading_time_enabled);
    assert!(!config.max_transfer_enabled);
    assert!(!config.nft_gated);
    assert_eq!(config.open_minute, Some(540));
    assert_eq!(config.close_minute, Some(1020));
    assert_eq!(config.max_transfer_amount, 100);
    assert_eq!(config.min_transfer_amount, 10);
    assert!(!reg.has_marker(WALLET));
}

#[test]
fn all_gates_off_passes_everything() {
    let reg = registry(Some(540), Some(1020), 100, 10);
    assert!(reg.evaluate(WALLET, u64::MAX, 0, None).is_ok());
}

#[test]
fn update_flags_is_owner_only() {
    let mut reg = registry(None, None, 100, 10);
    let err = reg.update_flags(OWNER + 1, true, true, true, true).unwrap_err();
    assert_eq!(err, PolicyError::Unauthorized);
    assert!(!reg.config().whitelist_enabled);

    reg.update_flags(OWNER, true, true, false, true).unwrap();
    let config = reg.config();
    assert!(config.whitelist_enabled);
    assert!(config.trading_time_enabled);
    assert!(!config.max_transfer_enabled);
    assert!(config.nft_gated);
}

#[test]
fn bounds_gate_is_inclusive_on_both_ends() {
    let mut reg = registry(None, None, 100, 10);
    reg.update_flags(OWNER, false, false, true, false).unwrap();
    assert!(reg.evaluate(WALLET, 10, 0, None).is_ok());
    assert!(reg.evaluate(WALLET, 100, 0, None).is_ok());
    assert_eq!(reg.evaluate(WALLET, 9, 0, None).unwrap_err(), PolicyError::BelowMinTransfer);
    assert_eq!(reg.evaluate(WALLET, 101, 0, None).unwrap_err(), PolicyError::ExceedsMaxTransfer);
}

#[test]
fn trading_window_gate_follows_the_clock() {
    let mut reg = registry(Some(540), Some(1020), 100, 10);
    reg.update_flags(OWNER, false, true, false, false).unwrap();
    // Minute 600 of the day.
    assert!(reg.evaluate(WALLET, 1, 600 * 60, None).is_ok());
    // Minute 1200.
    assert_eq!(
        reg.evaluate(WALLET, 1, 1200 * 60, None).unwrap_err(),
        PolicyError::TradingClosed
    );
}

#[test]
fn trading_window_wraps_midnight() {
    let mut reg = registry(Some(1320), Some(360), 100, 10);
    reg.update_flags(OWNER, false, true, false, false).unwrap();
    assert!(reg.evaluate(WALLET, 1, 1400 * 60, None).is_ok());
    assert!(reg.evaluate(WALLET, 1, 200 * 60, None).is_ok());
    assert_eq!(reg.evaluate(WALLET, 1, 800 * 60, None).unwrap_err(), PolicyError::TradingClosed);
}

#[test]
fn equal_open_and_close_minutes_never_open() {
    let mut reg = registry(Some(540), Some(540), 100, 10);
    reg.update_flags(OWNER, false, true, false, false).unwrap();
    for minute in [0i64, 539, 540, 541, 1439] {
        assert_eq!(
            reg.evaluate(WALLET, 1, minute * 60, None).unwrap_err(),
            PolicyError::TradingClosed
        );
    }
}

#[test]
fn unset_window_minutes_leave_the_gate_passing() {
    let mut reg = registry(Some(540), None, 100, 10);
    reg.update_flags(OWNER, false, true, false, false).unwrap();
    assert!(reg.evaluate(WALLET, 1, 0, None).is_ok());
    let mut reg = registry(None, Some(1020), 100, 10);
    reg.update_flags(OWNER, false, true, false, false).unwrap();
    assert!(reg.evaluate(WALLET, 1, 0, None).is_ok());
}

#[test]
fn validate_trading_hours_on_boundaries() {
    // The opening minute is in, the closing minute is out.
    assert!(validate_trading_hours(540, 1020, 540 * 60).is_ok());
    assert_eq!(
        validate_trading_hours(540, 1020, 1020 * 60).unwrap_err(),
        PolicyError::TradingClosed
    );
    // Seconds within a minute do not change the verdict.
    assert!(validate_trading_hours(540, 1020, 540 * 60 + 59).is_ok());
}

#[test]
fn minute_of_day_reduces_the_clock() {
    assert_eq!(minute_of_day(0), 0);
    assert_eq!(minute_of_day(59), 0);
    assert_eq!(minute_of_day(60), 1);
    assert_eq!(minute_of_day(86399), 1439);
    assert_eq!(minute_of_day(86400), 0);
    assert_eq!(minute_of_day(36000), 600);
    // Readings before the epoch still land in [0, 1440).
    assert_eq!(minute_of_day(-1), 1439);
    assert_eq!(minute_of_day(-86400), 0);
}

#[test]
fn window_test_on_plain_minutes() {
    assert!(is_window_open(540, 1020, 600));
    assert!(!is_window_open(540, 1020, 1200));
    assert!(is_window_open(1320, 360, 1400));
    assert!(is_window_open(1320, 360, 200));
    assert!(!is_window_open(1320, 360, 800));
    assert!(!is_window_open(700, 700, 700));
}

#[test]
fn whitelist_gate_passes_iff_marker_exists() {
    let mut reg = registry(None, None, 100, 10);
    reg.update_flags(OWNER, true, false, false, false).unwrap();
    assert_eq!(reg.evaluate(WALLET, 1, 0, None).unwrap_err(), PolicyError::NotWhitelisted);

    reg.add_to_whitelist(OWNER, WALLET).unwrap();
    assert!(reg.has_marker(WALLET));
    assert!(reg.evaluate(WALLET, 1, 0, None).is_ok());
    // The marker is for the exact wallet only.
    assert_eq!(
        reg.evaluate(OTHER_WALLET, 1, 0, None).unwrap_err(),
        PolicyError::NotWhitelisted
    );

    reg.remove_from_whitelist(OWNER, WALLET).unwrap();
    assert!(!reg.has_marker(WALLET));
    assert_eq!(reg.evaluate(WALLET, 1, 0, None).unwrap_err(), PolicyError::NotWhitelisted);
}

#[test]
fn grant_and_revoke_are_owner_only() {
    let mut reg = registry(None, None, 100, 10);
    let err = reg.add_to_whitelist(OWNER + 1, WALLET).unwrap_err();
    assert_eq!(err, PolicyError::Unauthorized);
    assert!(!reg.has_marker(WALLET));

    reg.add_to_whitelist(OWNER, WALLET).unwrap();
    let err = reg.remove_from_whitelist(OWNER + 1, WALLET).unwrap_err();
    assert_eq!(err, PolicyError::Unauthorized);
    assert!(reg.has_marker(WALLET));
}

#[test]
fn grant_and_revoke_leave_other_wallets_alone() {
    let mut reg = registry(None, None, 100, 10);
    reg.add_to_whitelist(OWNER, WALLET).unwrap();
    reg.add_to_whitelist(OWNER, OTHER_WALLET).unwrap();
    // Granting twice changes nothing.
    reg.add_to_whitelist(OWNER, WALLET).unwrap();
    assert!(reg.has_marker(WALLET));
    assert!(reg.has_marker(OTHER_WALLET));

    reg.remove_from_whitelist(OWNER, WALLET).unwrap();
    assert!(!reg.has_marker(WALLET));
    assert!(reg.has_marker(OTHER_WALLET));
    // Revoking a missing marker changes nothing.
    reg.remove_from_whitelist(OWNER, WALLET).unwrap();
    assert!(reg.has_marker(OTHER_WALLET));
}

#[test]
fn holding_gate_requires_a_non_zero_balance() {
    let mut reg = registry(None, None, 100, 10);
    reg.update_flags(OWNER, false, false, false, true).unwrap();
    // No account at all.
    assert_eq!(reg.evaluate(WALLET, 1, 0, None).unwrap_err(), PolicyError::MissingRequiredHolding);
    // Data too short to carry the balance field.
    let short = vec![1u8; 71];
    assert_eq!(
        reg.evaluate(WALLET, 1, 0, Some(&short)).unwrap_err(),
        PolicyError::MissingRequiredHolding
    );
    // A zero balance.
    let empty = holding_data(72, 0);
    assert_eq!(
        reg.evaluate(WALLET, 1, 0, Some(&empty)).unwrap_err(),
        PolicyError::MissingRequiredHolding
    );
    // A non-zero balance.
    let held = holding_data(165, 1);
    assert!(reg.evaluate(WALLET, 1, 0, Some(&held)).is_ok());
}

#[test]
fn holding_units_reads_little_endian_at_offset_64() {
    let mut data = vec![0u8; 80];
    data[64..72].copy_from_slice(&[0x08, 0x07, 0x06, 0x05, 0x04, 0x03, 0x02, 0x01]);
    assert_eq!(holding_units(&data), Some(0x0102030405060708));
    assert_eq!(holding_units(&vec![0u8; 72]), Some(0));
    assert_eq!(holding_units(&vec![0xFFu8; 72]), Some(u64::MAX));
    assert_eq!(holding_units(&vec![0xFFu8; 71]), None);
    assert_eq!(holding_units(&Vec::new()), None);
}

#[test]
fn gate_failures_report_in_gate_order() {
    // Everything enabled, nothing satisfied: the holding gate speaks first.
    let mut reg = registry(Some(540), Some(540), 100, 10);
    reg.update_flags(OWNER, true, true, true, true).unwrap();
    assert_eq!(reg.evaluate(WALLET, 5, 0, None).unwrap_err(), PolicyError::MissingRequiredHolding);
    // With the holding satisfied, the window speaks next.
    let held = holding_data(72, 1);
    assert_eq!(
        reg.evaluate(WALLET, 5, 0, Some(&held)).unwrap_err(),
        PolicyError::TradingClosed
    );
    // With the window open, the bounds speak before the allow-list.
    reg.update_flags(OWNER, true, false, true, true).unwrap();
    assert_eq!(
        reg.evaluate(WALLET, 101, 0, Some(&held)).unwrap_err(),
        PolicyError::ExceedsMaxTransfer
    );
    assert_eq!(
        reg.evaluate(WALLET, 5, 0, Some(&held)).unwrap_err(),
        PolicyError::BelowMinTransfer
    );
    // Last the allow-list.
    assert_eq!(
        reg.evaluate(WALLET, 50, 0, Some(&held)).unwrap_err(),
        PolicyError::NotWhitelisted
    );
}
