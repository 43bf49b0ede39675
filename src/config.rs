//! Configuration of the miners, with their defaults.
use vstd::prelude::*;

verus! {

/// Hardware threads of the two-socket layout, both sockets together.
pub const TOTAL_THREADS: usize = 192;

/// Sockets of the two-socket layout.
pub const TOTAL_SOCKETS: usize = 2;

/// Mining workers of the two-socket layout; the other threads stay with the
/// host.
pub const MINING_THREADS: usize = 188;

/// Mining workers of the single-socket layout.
pub const EPYC_MINING_THREADS: usize = 62;

/// Compute complexes of the single-socket layout.
pub const EPYC_9B14_CCDS: usize = 4;

/// Mining workers of the four-node layout.
pub const OPTIMAL_MINING_THREADS: u64 = 188;

/// Five minutes, the default candidate refresh interval.
pub const DEFAULT_REFRESH_MS: u64 = 300_000;

/// Options of the two-socket miner.
#[derive(Clone, Copy, Debug, PartialEq, Eq, Structural)]
pub struct DualSocketMiningConfig {
    /// Wall time after which a worker leaves its loop to pick up the current
    /// candidate, in milliseconds.
    pub candidate_update_interval_ms: u64,
    pub thread_restart_enabled: bool,
    pub performance_monitoring: bool,
    pub numa_optimization: bool,
    pub cross_socket_balancing: bool,
    pub zen3_cache_optimization: bool,
    pub threads_per_socket: usize,
}

impl Default for DualSocketMiningConfig {
    fn default() -> (r: Self)
        ensures
            r.candidate_update_interval_ms == DEFAULT_REFRESH_MS,
            r.thread_restart_enabled,
            r.performance_monitoring,
            r.numa_optimization,
            r.cross_socket_balancing,
            r.zen3_cache_optimization,
            r.threads_per_socket == MINING_THREADS / TOTAL_SOCKETS,
    {
        DualSocketMiningConfig {
            candidate_update_interval_ms: DEFAULT_REFRESH_MS,
            thread_restart_enabled: true,
            performance_monitoring: true,
            numa_optimization: true,
            cross_socket_balancing: true,
            zen3_cache_optimization: true,
            threads_per_socket: MINING_THREADS / TOTAL_SOCKETS,
        }
    }
}

/// Options of the single-socket miner.
#[derive(Clone, Copy, Debug, PartialEq, Eq, Structural)]
pub struct EpycMiningConfig {
    /// Wall time after which a worker leaves its loop to pick up the current
    /// candidate, in milliseconds.
    pub candidate_update_interval_ms: u64,
    pub thread_restart_enabled: bool,
    pub performance_monitoring: bool,
    pub zen4_optimizations: bool,
    pub avx512_enabled: bool,
    pub ddr5_prefetch: bool,
}

impl Default for EpycMiningConfig {
    fn default() -> (r: Self)
        ensures
            r.candidate_update_interval_ms == DEFAULT_REFRESH_MS,
            r.thread_restart_enabled,
            r.performance_monitoring,
            r.zen4_optimizations,
            r.avx512_enabled,
            r.ddr5_prefetch,
    {
        EpycMiningConfig {
            candidate_update_interval_ms: DEFAULT_REFRESH_MS,
            thread_restart_enabled: true,
            performance_monitoring: true,
            zen4_optimizations: true,
            avx512_enabled: true,
            ddr5_prefetch: true,
        }
    }
}

/// Options of the node-driven miner.
#[derive(Clone, Copy, Debug, PartialEq, Eq, Structural)]
pub struct OptimizedMiningConfig {
    pub numa_aware: bool,
    pub use_avx512: bool,
    pub memory_prefetch: bool,
    /// Extra alignment padding for hot buffers. The batch kernels give the
    /// same results either way, and `BatchProcessor` pads chunks to whole
    /// batches without regard to addresses, so nothing reads it.
    pub cache_aligned: bool,
    pub thread_affinity: bool,
}

impl Default for OptimizedMiningConfig {
    fn default() -> (r: Self)
        ensures
            r.numa_aware,
            r.use_avx512,
            r.memory_prefetch,
            r.cache_aligned,
            r.thread_affinity,
    {
        OptimizedMiningConfig {
            numa_aware: true,
            use_avx512: true,
            memory_prefetch: true,
            cache_aligned: true,
            thread_affinity: true,
        }
    }
}

} // verus!
