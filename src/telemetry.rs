//! Mining telemetry: hash rates, counters and the cross-socket balance check.
use vstd::prelude::*;

verus! {

/// Lower edge of the balanced band, in percent.
pub const BALANCE_LOW: u128 = 80;

/// Upper edge of the balanced band, in percent.
pub const BALANCE_HIGH: u128 = 120;

/// Group 0's rate as a percentage of group 1's; 0 when group 1 has no rate.
pub open spec fn balance_ratio_spec(r0: u64, r1: u64) -> int {
    if r1 == 0 {
        0
    } else {
        (100 * r0) / (r1 as int)
    }
}

/// Computes group 0's rate as a percentage of group 1's (rounded down);
/// 0 when group 1's rate is 0.
pub fn balance_ratio(r0: u64, r1: u64) -> (r: u128)
    ensures
        r as int == balance_ratio_spec(r0, r1),
{
    if r1 == 0 {
        0
    } else {
        (100 * r0 as u128) / (r1 as u128)
    }
}

/// Whether group 0's rate, as an exact percentage of group 1's, lies outside
/// the balanced band; a group 1 without rate gives the ratio 0, which does.
pub open spec fn imbalanced_spec(r0: u64, r1: u64) -> bool {
    r1 == 0 || 100 * r0 < BALANCE_LOW * r1 || 100 * r0 > BALANCE_HIGH * r1
}

/// Whether the rates `r0` and `r1` are out of balance: group 0's rate is
/// below 80% or above 120% of group 1's, or group 1 has no rate.
pub fn is_imbalanced(r0: u64, r1: u64) -> (r: bool)
    ensures
        r == imbalanced_spec(r0, r1),
{
    let a = 100 * r0 as u128;
    let b = r1 as u128;
    r1 == 0 || a < BALANCE_LOW * b || a > BALANCE_HIGH * b
}

/// A rate in events per second from a count and a span in milliseconds;
/// 0 for an empty span, and capped at the largest word.
pub open spec fn rate_spec(delta: u64, elapsed_ms: u64) -> int {
    if elapsed_ms == 0 {
        0
    } else if (delta * 1000) / (elapsed_ms as int) > u64::MAX {
        u64::MAX as int
    } else {
        (delta * 1000) / (elapsed_ms as int)
    }
}

/// Events per second for `delta` events over `elapsed_ms` milliseconds.
pub fn rate_per_second(delta: u64, elapsed_ms: u64) -> (r: u64)
    ensures
        r as int == rate_spec(delta, elapsed_ms),
{
    if elapsed_ms == 0 {
        return 0;
    }
    let rate = (delta as u128 * 1000) / (elapsed_ms as u128);
    if rate > u64::MAX as u128 {
        u64::MAX
    } else {
        rate as u64
    }
}

/// Turns a monotone counter into a rate at each tick of a periodic monitor.
pub struct RateMonitor {
    pub last_count: u64,
}

impl RateMonitor {
    /// A monitor whose counter starts at zero.
    pub fn new() -> (r: RateMonitor)
        ensures
            r.last_count == 0,
    {
        RateMonitor { last_count: 0 }
    }

    /// The rate since the previous tick, from the counter's value now and the
    /// time since that tick; a counter that went back counts as no events.
    pub fn tick(&mut self, current_count: u64, elapsed_ms: u64) -> (r: u64)
        ensures
            final(self).last_count == current_count,
            r as int == rate_spec(
                if current_count >= old(self).last_count {
                    (current_count - old(self).last_count) as u64
                } else {
                    0
                },
                elapsed_ms,
            ),
    {
        let delta = current_count.saturating_sub(self.last_count);
        self.last_count = current_count;
        rate_per_second(delta, elapsed_ms)
    }
}

/// Counters of a two-socket miner; each is written on its own.
pub struct DualSocketMiningStats {
    pub hash_rate_socket0: u64,
    pub hash_rate_socket1: u64,
    pub total_hash_rate: u64,
    pub solutions_found: u64,
    pub threads_active: u64,
    /// The balance at start-up, in percent; the current ratio is derived
    /// from the two rates by `get_numa_balance_ratio`.
    pub numa_balance_ratio: u64,
    pub cross_socket_migrations: u64,
    pub zen3_cache_hits: u64,
}

impl DualSocketMiningStats {
    /// All counters at zero and the balance at 100%.
    pub fn new() -> (r: DualSocketMiningStats)
        ensures
            r.hash_rate_socket0 == 0,
            r.hash_rate_socket1 == 0,
            r.total_hash_rate == 0,
            r.solutions_found == 0,
            r.threads_active == 0,
            r.numa_balance_ratio == 100,
            r.cross_socket_migrations == 0,
            r.zen3_cache_hits == 0,
    {
        DualSocketMiningStats {
            hash_rate_socket0: 0,
            hash_rate_socket1: 0,
            total_hash_rate: 0,
            solutions_found: 0,
            threads_active: 0,
            numa_balance_ratio: 100,
            cross_socket_migrations: 0,
            zen3_cache_hits: 0,
        }
    }

    /// The sum of both sockets' rates as last recorded.
    pub fn get_total_hash_rate(&self) -> (r: u64)
        ensures
            r == self.total_hash_rate,
    {
        self.total_hash_rate
    }

    /// The rate of socket 0 or 1; 0 for any other socket.
    pub fn get_socket_hash_rate(&self, socket: usize) -> (r: u64)
        ensures
            r == (if socket == 0 {
                self.hash_rate_socket0
            } else if socket == 1 {
                self.hash_rate_socket1
            } else {
                0
            }),
    {
        match socket {
            0 => self.hash_rate_socket0,
            1 => self.hash_rate_socket1,
            _ => 0,
        }
    }

    /// Records the rate of socket 0 or 1 (any other socket is ignored) and
    /// the total of both, capped at the largest word.
    pub fn update_socket_hash_rate(&mut self, socket: usize, rate: u64)
        ensures
            final(self).hash_rate_socket0 == (if socket == 0 {
                rate
            } else {
                old(self).hash_rate_socket0
            }),
            final(self).hash_rate_socket1 == (if socket == 1 {
                rate
            } else {
                old(self).hash_rate_socket1
            }),
            final(self).total_hash_rate as int == (if final(self).hash_rate_socket0
                + final(self).hash_rate_socket1 > u64::MAX {
                u64::MAX as int
            } else {
                final(self).hash_rate_socket0 + final(self).hash_rate_socket1
            }),
            final(self).solutions_found == old(self).solutions_found,
            final(self).threads_active == old(self).threads_active,
            final(self).numa_balance_ratio == old(self).numa_balance_ratio,
            final(self).cross_socket_migrations == old(self).cross_socket_migrations,
            final(self).zen3_cache_hits == old(self).zen3_cache_hits,
    {
        match socket {
            0 => self.hash_rate_socket0 = rate,
            1 => self.hash_rate_socket1 = rate,
            _ => {},
        }
        self.total_hash_rate = self.hash_rate_socket0.saturating_add(self.hash_rate_socket1);
    }

    /// Counts one more solution (wrapping, as a hardware counter does).
    pub fn increment_solutions(&mut self)
        ensures
            final(self).solutions_found == old(self).solutions_found.wrapping_add(1),
            final(self).hash_rate_socket0 == old(self).hash_rate_socket0,
            final(self).hash_rate_socket1 == old(self).hash_rate_socket1,
            final(self).total_hash_rate == old(self).total_hash_rate,
            final(self).threads_active == old(self).threads_active,
            final(self).numa_balance_ratio == old(self).numa_balance_ratio,
            final(self).cross_socket_migrations == old(self).cross_socket_migrations,
            final(self).zen3_cache_hits == old(self).zen3_cache_hits,
    {
        self.solutions_found = self.solutions_found.wrapping_add(1);
    }

    /// Socket 0's rate as a percentage of socket 1's; 0 when socket 1 has
    /// no rate.
    pub fn get_numa_balance_ratio(&self) -> (r: u128)
        ensures
            r as int == balance_ratio_spec(self.hash_rate_socket0, self.hash_rate_socket1),
    {
        balance_ratio(self.hash_rate_socket0, self.hash_rate_socket1)
    }

    /// One tick of the balance check: counts a migration when the sockets'
    /// rates are out of balance, and returns whether it did. No other
    /// counter is written; the ratio itself is derived, not stored.
    pub fn check_balance(&mut self) -> (r: bool)
        ensures
            r == imbalanced_spec(old(self).hash_rate_socket0, old(self).hash_rate_socket1),
            final(self).cross_socket_migrations == (if r {
                old(self).cross_socket_migrations.wrapping_add(1)
            } else {
                old(self).cross_socket_migrations
            }),
            final(self).hash_rate_socket0 == old(self).hash_rate_socket0,
            final(self).hash_rate_socket1 == old(self).hash_rate_socket1,
            final(self).total_hash_rate == old(self).total_hash_rate,
            final(self).solutions_found == old(self).solutions_found,
            final(self).threads_active == old(self).threads_active,
            final(self).numa_balance_ratio == old(self).numa_balance_ratio,
            final(self).zen3_cache_hits == old(self).zen3_cache_hits,
    {
        let imbalanced = is_imbalanced(self.hash_rate_socket0, self.hash_rate_socket1);
        if imbalanced {
            self.cross_socket_migrations = self.cross_socket_migrations.wrapping_add(1);
        }
        imbalanced
    }

    /// Counts a worker that started running.
    pub fn thread_started(&mut self)
        ensures
            final(self).threads_active == old(self).threads_active.wrapping_add(1),
            final(self).hash_rate_socket0 == old(self).hash_rate_socket0,
            final(self).hash_rate_socket1 == old(self).hash_rate_socket1,
            final(self).total_hash_rate == old(self).total_hash_rate,
            final(self).solutions_found == old(self).solutions_found,
            final(self).numa_balance_ratio == old(self).numa_balance_ratio,
            final(self).cross_socket_migrations == old(self).cross_socket_migrations,
            final(self).zen3_cache_hits == old(self).zen3_cache_hits,
    {
        self.threads_active = self.threads_active.wrapping_add(1);
    }

    /// Counts a worker that left its loop.
    pub fn thread_stopped(&mut self)
        ensures
            final(self).threads_active == old(self).threads_active.wrapping_sub(1),
            final(self).hash_rate_socket0 == old(self).hash_rate_socket0,
            final(self).hash_rate_socket1 == old(self).hash_rate_socket1,
            final(self).total_hash_rate == old(self).total_hash_rate,
            final(self).solutions_found == old(self).solutions_found,
            final(self).numa_balance_ratio == old(self).numa_balance_ratio,
            final(self).cross_socket_migrations == old(self).cross_socket_migrations,
            final(self).zen3_cache_hits == old(self).zen3_cache_hits,
    {
        self.threads_active = self.threads_active.wrapping_sub(1);
    }

    /// Counts one prefetch of the worker's cache-resident data.
    pub fn record_cache_hit(&mut self)
        ensures
            final(self).zen3_cache_hits == old(self).zen3_cache_hits.wrapping_add(1),
            final(self).hash_rate_socket0 == old(self).hash_rate_socket0,
            final(self).hash_rate_socket1 == old(self).hash_rate_socket1,
            final(self).total_hash_rate == old(self).total_hash_rate,
            final(self).solutions_found == old(self).solutions_found,
            final(self).threads_active == old(self).threads_active,
            final(self).numa_balance_ratio == old(self).numa_balance_ratio,
            final(self).cross_socket_migrations == old(self).cross_socket_migrations,
    {
        self.zen3_cache_hits = self.zen3_cache_hits.wrapping_add(1);
    }
}

/// Counters of a single-socket miner; each is written on its own.
pub struct EpycMiningStats {
    pub hash_rate: u64,
    pub solutions_found: u64,
    pub threads_active: u64,
    pub avg_hash_time: u64,
    pub zen4_cache_hits: u64,
    pub avx512_operations: u64,
}

impl EpycMiningStats {
    /// All counters at zero.
    pub fn new() -> (r: EpycMiningStats)
        ensures
            r.hash_rate == 0,
            r.solutions_found == 0,
            r.threads_active == 0,
            r.avg_hash_time == 0,
            r.zen4_cache_hits == 0,
            r.avx512_operations == 0,
    {
        EpycMiningStats {
            hash_rate: 0,
            solutions_found: 0,
            threads_active: 0,
            avg_hash_time: 0,
            zen4_cache_hits: 0,
            avx512_operations: 0,
        }
    }

    /// The rate as last recorded.
    pub fn get_hash_rate(&self) -> (r: u64)
        ensures
            r == self.hash_rate,
    {
        self.hash_rate
    }

    /// Counts one more solution (wrapping).
    pub fn increment_solutions(&mut self)
        ensures
            final(self).solutions_found == old(self).solutions_found.wrapping_add(1),
            final(self).hash_rate == old(self).hash_rate,
            final(self).threads_active == old(self).threads_active,
            final(self).avg_hash_time == old(self).avg_hash_time,
            final(self).zen4_cache_hits == old(self).zen4_cache_hits,
            final(self).avx512_operations == old(self).avx512_operations,
    {
        self.solutions_found = self.solutions_found.wrapping_add(1);
    }

    /// Records the rate.
    pub fn update_hash_rate(&mut self, rate: u64)
        ensures
            final(self).hash_rate == rate,
            final(self).solutions_found == old(self).solutions_found,
            final(self).threads_active == old(self).threads_active,
            final(self).avg_hash_time == old(self).avg_hash_time,
            final(self).zen4_cache_hits == old(self).zen4_cache_hits,
            final(self).avx512_operations == old(self).avx512_operations,
    {
        self.hash_rate = rate;
    }

    /// Counts `lanes` more lanes of batched hashing (wrapping).
    pub fn record_batch(&mut self, lanes: u64)
        ensures
            final(self).avx512_operations == old(self).avx512_operations.wrapping_add(lanes),
            final(self).hash_rate == old(self).hash_rate,
            final(self).solutions_found == old(self).solutions_found,
            final(self).threads_active == old(self).threads_active,
            final(self).zen4_cache_hits == old(self).zen4_cache_hits,
            final(self).avg_hash_time == old(self).avg_hash_time,
    {
        self.avx512_operations = self.avx512_operations.wrapping_add(lanes);
    }

    /// Counts a worker that started running.
    pub fn thread_started(&mut self)
        ensures
            final(self).threads_active == old(self).threads_active.wrapping_add(1),
            final(self).hash_rate == old(self).hash_rate,
            final(self).solutions_found == old(self).solutions_found,
            final(self).avg_hash_time == old(self).avg_hash_time,
            final(self).zen4_cache_hits == old(self).zen4_cache_hits,
            final(self).avx512_operations == old(self).avx512_operations,
    {
        self.threads_active = self.threads_active.wrapping_add(1);
    }

    /// Counts a worker that left its loop.
    pub fn thread_stopped(&mut self)
        ensures
            final(self).threads_active == old(self).threads_active.wrapping_sub(1),
            final(self).hash_rate == old(self).hash_rate,
            final(self).solutions_found == old(self).solutions_found,
            final(self).avg_hash_time == old(self).avg_hash_time,
            final(self).zen4_cache_hits == old(self).zen4_cache_hits,
            final(self).avx512_operations == old(self).avx512_operations,
    {
        self.threads_active = self.threads_active.wrapping_sub(1);
    }

    /// Counts one prefetch of the worker's cache-resident data.
    pub fn record_cache_hit(&mut self)
        ensures
            final(self).zen4_cache_hits == old(self).zen4_cache_hits.wrapping_add(1),
            final(self).hash_rate == old(self).hash_rate,
            final(self).solutions_found == old(self).solutions_found,
            final(self).threads_active == old(self).threads_active,
            final(self).avg_hash_time == old(self).avg_hash_time,
            final(self).avx512_operations == old(self).avx512_operations,
    {
        self.zen4_cache_hits = self.zen4_cache_hits.wrapping_add(1);
    }
}

} // verus!
