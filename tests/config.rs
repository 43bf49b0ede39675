use epyc_mining::config::{DualSocketMiningConfig, EpycMiningConfig, OptimizedMiningConfig};

#[test]
fn defaults() {
    let d = DualSocketMiningConfig::default();
    assert_eq!(d.candidate_update_interval_ms, 300_000);
    assert_eq!(d.threads_per_socket, 94);
    assert!(d.thread_restart_enabled && d.numa_optimization && d.cross_socket_balancing);
    let e = EpycMiningConfig::default();
    assert_eq!(e.candidate_update_interval_ms, 300_000);
    assert!(e.avx512_enabled && e.ddr5_prefetch && e.zen4_optimizations);
    let o = OptimizedMiningConfig::default();
    assert!(o.numa_aware && o.use_avx512 && o.memory_prefetch && o.cache_aligned && o.thread_affinity);
}
