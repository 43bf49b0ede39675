//! What a mining worker decides in its loop, and the per-batch work that the
//! hardware-specific loops perform on their buffers.
use vstd::prelude::*;

verus! {

/// The constant that the batch steps add to every lane.
pub const HASH_STEP: u64 = 0x1234_5678_9ABC_DEF0;

/// Bytes in a cache line.
pub const CACHE_LINE: usize = 64;

/// How often a worker looks at the clock and pauses, in iterations.
#[derive(Clone, Copy, Debug, PartialEq, Eq, Structural)]
pub struct LoopSchedule {
    /// Iterations between rate reports; 0 for none.
    pub report_every: u64,
    /// Iterations between checks of the refresh interval; 0 for none.
    pub restart_every: u64,
    /// Iterations between short pauses; 0 for none.
    pub pause_every: u64,
    /// Least time between two rate reports, in milliseconds.
    pub report_min_ms: u64,
}

/// The two-socket worker: reports every 50,000 iterations (at most every
/// five seconds), checks the refresh interval every 100,000 and pauses
/// every 20,000.
pub fn dual_socket_schedule() -> (r: LoopSchedule)
    ensures
        r == (LoopSchedule {
            report_every: 50_000,
            restart_every: 100_000,
            pause_every: 20_000,
            report_min_ms: 5_000,
        }),
{
    LoopSchedule { report_every: 50_000, restart_every: 100_000, pause_every: 20_000, report_min_ms: 5_000 }
}

/// The single-socket worker: no rate reports, checks the refresh interval
/// every 100,000 iterations and pauses every 10,000.
pub fn single_socket_schedule() -> (r: LoopSchedule)
    ensures
        r == (LoopSchedule {
            report_every: 0,
            restart_every: 100_000,
            pause_every: 10_000,
            report_min_ms: 0,
        }),
{
    LoopSchedule { report_every: 0, restart_every: 100_000, pause_every: 10_000, report_min_ms: 0 }
}

/// What is due after an iteration.
#[derive(Clone, Copy, Debug, PartialEq, Eq, Structural)]
pub struct LoopChecks {
    pub report_due: bool,
    pub restart_check_due: bool,
    pub pause_due: bool,
}

/// Whether iteration number `n` falls on a period of `every` (never for 0).
pub open spec fn on_period(n: u64, every: u64) -> bool {
    every != 0 && n % every == 0
}

/// A worker's own counters.
pub struct WorkerLoopState {
    pub iteration_count: u64,
    pub local_hash_count: u64,
}

impl WorkerLoopState {
    /// A worker that has not run an iteration.
    pub fn new() -> (r: WorkerLoopState)
        ensures
            r.iteration_count == 0,
            r.local_hash_count == 0,
    {
        WorkerLoopState { iteration_count: 0, local_hash_count: 0 }
    }

    /// Counts an iteration that hashed `hashes` items, and says what is due.
    pub fn after_iteration(&mut self, hashes: u64, schedule: &LoopSchedule) -> (r: LoopChecks)
        ensures
            final(self).iteration_count == old(self).iteration_count.wrapping_add(1),
            final(self).local_hash_count == old(self).local_hash_count.wrapping_add(hashes),
            r.report_due == on_period(final(self).iteration_count, schedule.report_every),
            r.restart_check_due == on_period(final(self).iteration_count, schedule.restart_every),
            r.pause_due == on_period(final(self).iteration_count, schedule.pause_every),
    {
        self.iteration_count = self.iteration_count.wrapping_add(1);
        self.local_hash_count = self.local_hash_count.wrapping_add(hashes);
        let n = self.iteration_count;
        LoopChecks {
            report_due: schedule.report_every != 0 && n % schedule.report_every == 0,
            restart_check_due: schedule.restart_every != 0 && n % schedule.restart_every == 0,
            pause_due: schedule.pause_every != 0 && n % schedule.pause_every == 0,
        }
    }

    /// At a due report, `elapsed_ms` after the previous one: once at least
    /// the schedule's least time has passed, gives the rate of the hashes
    /// counted since and starts counting afresh; else keeps counting.
    pub fn take_report(&mut self, elapsed_ms: u64, schedule: &LoopSchedule) -> (r: Option<u64>)
        ensures
            elapsed_ms >= schedule.report_min_ms && elapsed_ms > 0 ==> r == Some(
                crate::telemetry::rate_spec(old(self).local_hash_count, elapsed_ms) as u64,
            ) && final(self).local_hash_count == 0,
            !(elapsed_ms >= schedule.report_min_ms && elapsed_ms > 0) ==> r is None
                && final(self).local_hash_count == old(self).local_hash_count,
            final(self).iteration_count == old(self).iteration_count,
    {
        if elapsed_ms >= schedule.report_min_ms && elapsed_ms > 0 {
            let rate = crate::telemetry::rate_per_second(self.local_hash_count, elapsed_ms);
            self.local_hash_count = 0;
            Some(rate)
        } else {
            None
        }
    }
}

/// Whether a worker that has run `elapsed_ms` should leave its loop so that
/// it is started again on the current candidate.
pub fn restart_due(restart_enabled: bool, elapsed_ms: u64, interval_ms: u64) -> (r: bool)
    ensures
        r == (restart_enabled && elapsed_ms > interval_ms),
{
    restart_enabled && elapsed_ms > interval_ms
}

/// What the two-socket step adds to lane `i` on socket `socket`.
pub open spec fn dual_lane_offset(socket: u64, i: u64) -> u64 {
    HASH_STEP.wrapping_add(socket.wrapping_mul(0x1_0000_0000)).wrapping_add(i)
}

/// The cache after the first `n` lanes of the two-socket step each wrote
/// their low byte to line slot `(8 * i) % len`.
pub open spec fn dual_cache_after(cache: Seq<u8>, items: Seq<u64>, n: int) -> Seq<u8>
    decreases n,
{
    if n <= 0 {
        cache
    } else {
        dual_cache_after(cache, items, n - 1).update(
            ((n - 1) * 8) % (cache.len() as int),
            (items[n - 1] % 256) as u8,
        )
    }
}

proof fn lemma_dual_cache_len(cache: Seq<u8>, items: Seq<u64>, n: int)
    requires
        cache.len() > 0,
    ensures
        dual_cache_after(cache, items, n).len() == cache.len(),
    decreases n,
{
    if n > 0 {
        lemma_dual_cache_len(cache, items, n - 1);
    }
}

/// One batch step of the two-socket worker: every lane advances by a
/// socket-dependent offset, and its low byte is written to the cache data.
pub fn zen3_dual_socket_hash(buffer: &mut [u64], cache_data: &mut [u8], socket: usize)
    requires
        old(cache_data)@.len() > 0,
        old(buffer)@.len() * 8 <= usize::MAX,
    ensures
        final(buffer)@.len() == old(buffer)@.len(),
        forall|i: int|
            0 <= i < old(buffer)@.len() ==> #[trigger] final(buffer)@[i] == old(
                buffer,
            )@[i].wrapping_add(dual_lane_offset(socket as u64, i as u64)),
        final(cache_data)@ == dual_cache_after(old(cache_data)@, final(buffer)@, old(buffer)@.len() as int),
{
    let ghost buf0 = buffer@;
    let ghost cache0 = cache_data@;
    let len = buffer.len();
    let socket_offset = (socket as u64).wrapping_mul(0x1_0000_0000);
    let mut i: usize = 0;
    while i < len
        invariant
            len == buf0.len(),
            len * 8 <= usize::MAX,
            cache0.len() > 0,
            buffer@.len() == len,
            cache_data@.len() == cache0.len(),
            socket_offset == (socket as u64).wrapping_mul(0x1_0000_0000),
            i <= len,
            forall|k: int|
                0 <= k < i ==> #[trigger] buffer@[k] == buf0[k].wrapping_add(
                    dual_lane_offset(socket as u64, k as u64),
                ),
            forall|k: int| i <= k < len ==> #[trigger] buffer@[k] == buf0[k],
            cache_data@ == dual_cache_after(cache0, buffer@, i as int),
        decreases len - i,
    {
        let ghost before = buffer@;
        let item = buffer[i].wrapping_add(HASH_STEP.wrapping_add(socket_offset).wrapping_add(i as u64));
        buffer[i] = item;
        proof {
            assert forall|n: int| 0 <= n <= i implies dual_cache_after(cache0, buffer@, n)
                == dual_cache_after(cache0, before, n) by {
                lemma_dual_cache_prefix(cache0, buffer@, before, n);
            }
            lemma_dual_cache_len(cache0, buffer@, i as int);
        }
        let cache_index = (i * 8) % cache_data.len();
        cache_data[cache_index] = (item & 0xFF) as u8;
        assert((item & 0xFF) == item % 256) by (bit_vector);
        i = i + 1;
    }
}

proof fn lemma_dual_cache_prefix(cache: Seq<u8>, a: Seq<u64>, b: Seq<u64>, n: int)
    requires
        n <= a.len(),
        n <= b.len(),
        forall|k: int| 0 <= k < n ==> a[k] == b[k],
    ensures
        dual_cache_after(cache, a, n) == dual_cache_after(cache, b, n),
    decreases n,
{
    if n > 0 {
        lemma_dual_cache_prefix(cache, a, b, n - 1);
    }
}

/// One batch step of the single-socket worker: every lane of each whole
/// group of eight advances by the step constant; a shorter tail stays.
pub fn zen4_avx512_hash_batch(buffer: &mut [u64])
    ensures
        final(buffer)@.len() == old(buffer)@.len(),
        forall|i: int|
            0 <= i < old(buffer)@.len() ==> #[trigger] final(buffer)@[i] == if i < old(
                buffer,
            )@.len() - old(buffer)@.len() % 8 {
                old(buffer)@[i].wrapping_add(HASH_STEP)
            } else {
                old(buffer)@[i]
            },
{
    let ghost buf0 = buffer@;
    let len = buffer.len();
    let whole = len - len % 8;
    let mut i: usize = 0;
    while i < whole
        invariant
            len == buf0.len(),
            whole == len - len % 8,
            buffer@.len() == len,
            i <= whole,
            forall|k: int|
                0 <= k < len ==> #[trigger] buffer@[k] == if k < i {
                    buf0[k].wrapping_add(HASH_STEP)
                } else {
                    buf0[k]
                },
        decreases whole - i,
    {
        buffer[i] = buffer[i].wrapping_add(HASH_STEP);
        i = i + 1;
    }
}

/// The line that the two-socket worker prefetches at `iteration`, if it lies
/// within `data_len` bytes: one of the first 32 lines, in turn.
pub fn zen3_prefetch_offset(iteration: u64, data_len: usize) -> (r: Option<usize>)
    ensures
        (iteration % 32) * 64 < data_len ==> r == Some(((iteration % 32) * 64) as usize),
        (iteration % 32) * 64 >= data_len ==> r is None,
{
    let offset = (iteration % 32) as usize * CACHE_LINE;
    if offset < data_len {
        Some(offset)
    } else {
        None
    }
}

/// The lines that the single-socket worker prefetches at `iteration`: one of
/// the first 64 lines in turn, and the line after it; each only if it lies
/// within `data_len` bytes.
pub fn zen4_prefetch_offsets(iteration: u64, data_len: usize) -> (r: (Option<usize>, Option<usize>))
    ensures
        (iteration % 64) * 64 < data_len ==> r.0 == Some(((iteration % 64) * 64) as usize),
        (iteration % 64) * 64 >= data_len ==> r.0 is None && r.1 is None,
        (iteration % 64) * 64 < data_len && (iteration % 64) * 64 + 64 < data_len ==> r.1 == Some(
            ((iteration % 64) * 64 + 64) as usize,
        ),
        (iteration % 64) * 64 + 64 >= data_len ==> r.1 is None,
{
    let offset = (iteration % 64) as usize * CACHE_LINE;
    if offset >= data_len {
        return (None, None);
    }
    let next = offset + CACHE_LINE;
    (Some(offset), if next < data_len {
        Some(next)
    } else {
        None
    })
}

/// The element offsets to prefetch in a buffer of `data_len` words at
/// `offset`: the offset itself and the next line, each only if in bounds.
pub fn mining_prefetch_offsets(data_len: usize, offset: usize) -> (r: (Option<usize>, Option<usize>))
    ensures
        offset < data_len ==> r.0 == Some(offset),
        offset >= data_len ==> r.0 is None && r.1 is None,
        offset < data_len && offset + 8 < data_len ==> r.1 == Some((offset + 8) as usize),
        offset + 8 >= data_len ==> r.1 is None,
{
    if offset >= data_len {
        return (None, None);
    }
    (Some(offset), if data_len >= 8 && offset < data_len - 8 {
        Some(offset + 8)
    } else {
        None
    })
}

} // verus!
