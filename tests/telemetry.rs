use epyc_mining::telemetry::{
    balance_ratio, is_imbalanced, rate_per_second, DualSocketMiningStats, EpycMiningStats,
    RateMonitor,
};

#[test]
fn balance_ratio_is_a_percentage() {
    assert_eq!(balance_ratio(500, 0), 0);
    assert_eq!(balance_ratio(0, 0), 0);
    assert_eq!(balance_ratio(100, 100), 100);
    assert_eq!(balance_ratio(150, 100), 150);
    assert_eq!(balance_ratio(1, 3), 33);
    assert_eq!(balance_ratio(u64::MAX, 1), 100 * u64::MAX as u128);
}

#[test]
fn imbalance_band() {
    assert!(is_imbalanced(79, 100));
    assert!(!is_imbalanced(80, 100));
    assert!(!is_imbalanced(120, 100));
    assert!(is_imbalanced(121, 100));
    assert!(is_imbalanced(0, 100));
    assert!(is_imbalanced(5, 0));
    // 120.5% is outside the band although it rounds down to 120
    assert!(is_imbalanced(241, 200));
    assert!(!is_imbalanced(240, 200));
    // 79.5% is outside the band
    assert!(is_imbalanced(159, 200));
}

#[test]
fn dual_stats_track_rates_and_balance() {
    let mut s = DualSocketMiningStats::new();
    assert_eq!(s.numa_balance_ratio, 100);
    s.update_socket_hash_rate(0, 300);
    s.update_socket_hash_rate(1, 200);
    s.update_socket_hash_rate(7, 999);
    assert_eq!(s.get_socket_hash_rate(0), 300);
    assert_eq!(s.get_socket_hash_rate(1), 200);
    assert_eq!(s.get_socket_hash_rate(2), 0);
    assert_eq!(s.get_total_hash_rate(), 500);
    assert_eq!(s.get_numa_balance_ratio(), 150);
    assert!(s.check_balance());
    assert_eq!(s.cross_socket_migrations, 1);
    assert_eq!(s.numa_balance_ratio, 100);
    s.update_socket_hash_rate(0, 210);
    assert!(!s.check_balance());
    assert_eq!(s.cross_socket_migrations, 1);
    s.update_socket_hash_rate(0, 241);
    assert_eq!(s.get_numa_balance_ratio(), 120);
    assert!(s.check_balance());
    assert_eq!(s.cross_socket_migrations, 2);
    s.update_socket_hash_rate(1, 0);
    assert!(s.check_balance());
    assert_eq!(s.cross_socket_migrations, 3);
    s.update_socket_hash_rate(0, u64::MAX);
    assert_eq!(s.get_total_hash_rate(), u64::MAX);
    s.increment_solutions();
    s.thread_started();
    s.thread_started();
    s.thread_stopped();
    assert_eq!(s.solutions_found, 1);
    assert_eq!(s.threads_active, 1);
}

#[test]
fn single_stats_counters() {
    let mut s = EpycMiningStats::new();
    s.update_hash_rate(1234);
    s.increment_solutions();
    s.record_batch(8);
    s.record_batch(8);
    s.record_cache_hit();
    assert_eq!(s.get_hash_rate(), 1234);
    assert_eq!(s.solutions_found, 1);
    assert_eq!(s.avx512_operations, 16);
    assert_eq!(s.zen4_cache_hits, 1);
}

#[test]
fn rates_from_counter_deltas() {
    assert_eq!(rate_per_second(100, 0), 0);
    assert_eq!(rate_per_second(100, 10_000), 10);
    assert_eq!(rate_per_second(3, 1500), 2);
    assert_eq!(rate_per_second(u64::MAX, 1), u64::MAX);
    let mut m = RateMonitor::new();
    assert_eq!(m.tick(1000, 10_000), 100);
    assert_eq!(m.tick(1500, 5_000), 100);
    assert_eq!(m.tick(1200, 5_000), 0);
    assert_eq!(m.last_count, 1200);
}
