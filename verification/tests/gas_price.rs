use bulkmail::gas_price::{
    CongestionLevel, GasPriceManager, CONFIRMATION_TIME_WINDOW, INITIAL_BASE_FEE,
    INITIAL_PRIORITY_FEE, MAX_PRIORITY_FEE,
};
use std::time::Duration;

fn nanos(secs: u64) -> u128 {
    Duration::from_secs(secs).as_nanos()
}

#[test]
fn test_initial_gas_price() {
    let manager = GasPriceManager::new();
    let (base_fee, priority_fee) = manager.get_gas_price(1).unwrap();
    assert_eq!(base_fee, INITIAL_BASE_FEE);

    // 2 Gwei (initial priority fee * initial congestion)
    assert_eq!(priority_fee, 2_000_000_000u128);
}

#[test]
fn test_priority_influence() {
    let manager = GasPriceManager::new();
    let (_, priority_fee_1) = manager.get_gas_price(1).unwrap();
    let (_, priority_fee_5) = manager.get_gas_price(5).unwrap();
    assert!(priority_fee_5 > priority_fee_1);
}

#[test]
fn test_max_priority_fee() {
    let manager = GasPriceManager::new();
    let (_, priority_fee) = manager.get_gas_price(100).unwrap();
    assert!(priority_fee <= MAX_PRIORITY_FEE);
}

#[test]
fn test_congestion_levels() {
    let mut manager = GasPriceManager::new();

    // Test low congestion
    for _ in 0..10 {
        manager.update_on_confirmation(nanos(10), 1_000_000_000);
    }
    let (_, priority_fee_low) = manager.get_gas_price(1).unwrap();

    // Test medium congestion
    for _ in 0..10 {
        manager.update_on_confirmation(nanos(30), 1_000_000_000);
    }
    let (_, priority_fee_medium) = manager.get_gas_price(1).unwrap();

    // Test high congestion
    for _ in 0..10 {
        manager.update_on_confirmation(nanos(70), 1_000_000_000);
    }
    let (_, priority_fee_high) = manager.get_gas_price(1).unwrap();

    assert!(priority_fee_low < priority_fee_medium);
    assert!(priority_fee_medium < priority_fee_high);
}

#[test]
fn test_update_on_confirmation() {
    let mut manager = GasPriceManager::new();
    let initial_priority_fee = manager.priority_fee();

    manager.update_on_confirmation(nanos(30), 2_000_000_000);

    let updated_priority_fee = manager.priority_fee();
    assert!(updated_priority_fee > initial_priority_fee);
}

#[test]
fn test_confirmation_time_window() {
    let mut manager = GasPriceManager::new();

    for i in 0..=CONFIRMATION_TIME_WINDOW {
        manager.update_on_confirmation(nanos(i as u64), 1_000_000_000);
    }

    let confirmation_times = manager.confirmation_times();
    assert_eq!(confirmation_times.len(), CONFIRMATION_TIME_WINDOW);
    assert_eq!(confirmation_times.front(), Some(&nanos(1)));
    assert_eq!(confirmation_times.back(), Some(&nanos(CONFIRMATION_TIME_WINDOW as u64)));
}

#[test]
fn congestion_levels_by_average() {
    let mut manager = GasPriceManager::new();
    assert_eq!(manager.analyze_network_congestion(), CongestionLevel::Medium);
    manager.update_on_confirmation(nanos(14), INITIAL_PRIORITY_FEE);
    assert_eq!(manager.analyze_network_congestion(), CongestionLevel::Low);
    // average of 14 s and 16 s is exactly 15 s: no longer low
    manager.update_on_confirmation(nanos(16), INITIAL_PRIORITY_FEE);
    assert_eq!(manager.analyze_network_congestion(), CongestionLevel::Medium);
    manager.update_on_confirmation(nanos(150), INITIAL_PRIORITY_FEE);
    // (14 + 16 + 150) / 3 = 60 s: high
    assert_eq!(manager.analyze_network_congestion(), CongestionLevel::High);
}

#[test]
fn congestion_multipliers() {
    let low: i32 = CongestionLevel::Low.into();
    let medium: i32 = CongestionLevel::Medium.into();
    let high: i32 = CongestionLevel::High.into();
    assert_eq!((low, medium, high), (1, 2, 3));
}

#[test]
fn priority_fee_formula_values() {
    let manager = GasPriceManager::new();
    // 1 Gwei * 2 (medium) * 7
    assert_eq!(manager.calculate_priority_fee(7), 14_000_000_000);
    // priorities above 10 count as 10
    assert_eq!(manager.calculate_priority_fee(10), 20_000_000_000);
    assert_eq!(manager.calculate_priority_fee(u32::MAX), 20_000_000_000);
    assert_eq!(manager.calculate_priority_fee(0), 0);
    assert_eq!(manager.get_base_fee(), 2_000_000_000);
}

#[test]
fn priority_fee_is_capped() {
    let mut manager = GasPriceManager::new();
    // drive the base priority fee up to 100 Gwei: the fee for priority 10 is capped
    for _ in 0..40 {
        manager.update_on_confirmation(nanos(70), 200_000_000_000);
    }
    assert!(manager.priority_fee() > 10_000_000_000);
    assert_eq!(manager.calculate_priority_fee(10), MAX_PRIORITY_FEE);
}

#[test]
fn fee_average_rounds_down() {
    let mut manager = GasPriceManager::new();
    manager.update_on_confirmation(nanos(1), 4);
    assert_eq!(manager.priority_fee(), (INITIAL_PRIORITY_FEE + 4) / 2);
    manager.update_on_confirmation(nanos(1), u128::MAX);
    // (500_000_002 + u128::MAX) / 2, computed without overflow
    assert_eq!(manager.priority_fee(), 250_000_001 + u128::MAX / 2);
}

#[test]
fn window_total_check() {
    let mut manager = GasPriceManager::new();
    assert!(manager.window_total_fits());
    let max = Duration::MAX.as_nanos();
    manager.update_on_confirmation(max, 0);
    assert!(manager.window_total_fits());
    manager.update_on_confirmation(1, 0);
    assert!(!manager.window_total_fits());
}
