//! Partitioning of the logical CPUs into locality domains, and the mapping
//! from a worker's index to the CPU it is pinned to.
use vstd::prelude::*;
use vstd::set_lib::{lemma_int_range, set_int_range};

verus! {

/// One locality domain: the contiguous CPU ids `[start, end)`, served by
/// memory node `numa_node`.
#[derive(Clone, Copy, Debug, PartialEq, Eq, Structural)]
pub struct CpuGroup {
    pub group_id: usize,
    pub start: usize,
    pub end: usize,
    pub numa_node: usize,
}

impl CpuGroup {
    /// The CPU ids of the group.
    pub open spec fn cpu_ids(&self) -> Set<int> {
        set_int_range(self.start as int, self.end as int)
    }

    /// Number of CPUs in the group.
    pub fn len(&self) -> (r: usize)
        requires
            self.start <= self.end,
        ensures
            r == self.end - self.start,
    {
        self.end - self.start
    }
}

/// Why a topology could not be formed.
#[derive(Clone, Copy, Debug, PartialEq, Eq, Structural)]
pub enum TopologyError {
    /// Fewer logical CPUs than the configuration needs.
    InsufficientResources { detected: usize, required: usize },
    /// No locality domain was asked for.
    NoGroups,
}

/// First CPU of group `i` when `usable` CPUs are split into `n` contiguous
/// groups whose sizes differ by at most one (the larger ones first).
pub open spec fn group_start(usable: int, n: int, i: int) -> int {
    i * (usable / n) + if i < usable % n {
        i
    } else {
        usable % n
    }
}

/// The CPU ids of group `i` of that split.
pub open spec fn group_range(usable: int, n: int, i: int) -> Set<int> {
    set_int_range(group_start(usable, n, i), group_start(usable, n, i + 1))
}

/// The union of the CPU ids of the first `k` groups of that split.
pub open spec fn groups_union(usable: int, n: int, k: int) -> Set<int>
    decreases k,
{
    if k <= 0 {
        Set::empty()
    } else {
        groups_union(usable, n, k - 1).union(group_range(usable, n, k - 1))
    }
}

/// The placement table: every group of the split, in order.
pub struct Topology {
    pub groups: Vec<CpuGroup>,
    pub usable_cpus: usize,
}

impl Topology {
    /// The groups are the even contiguous split of `[0, usable_cpus)`, each
    /// numbered and served by the memory node of its position.
    pub open spec fn wf(&self) -> bool {
        let n = self.groups@.len() as int;
        &&& n > 0
        &&& forall|i: int|
            0 <= i < n ==> {
                let g = #[trigger] self.groups@[i];
                &&& g.group_id == i
                &&& g.numa_node == i
                &&& g.start == group_start(self.usable_cpus as int, n, i)
                &&& g.end == group_start(self.usable_cpus as int, n, i + 1)
            }
    }
}

proof fn lemma_group_start_facts(usable: int, n: int)
    requires
        usable >= 0,
        n > 0,
    ensures
        group_start(usable, n, 0) == 0,
        group_start(usable, n, n) == usable,
        forall|i: int, j: int|
            0 <= i <= j <= n ==> #[trigger] group_start(usable, n, i) <= #[trigger] group_start(
                usable,
                n,
                j,
            ),
{
    let q = usable / n;
    let r = usable % n;
    vstd::arithmetic::div_mod::lemma_fundamental_div_mod(usable, n);
    vstd::arithmetic::div_mod::lemma_mod_pos_bound(usable, n);
    assert(q >= 0) by {
        vstd::arithmetic::div_mod::lemma_div_pos_is_pos(usable, n);
    }
    assert forall|i: int, j: int| 0 <= i <= j <= n implies #[trigger] group_start(usable, n, i)
        <= #[trigger] group_start(usable, n, j) by {
        vstd::arithmetic::mul::lemma_mul_inequality(i, j, q);
        assert(i * q == q * i && j * q == q * j) by (nonlinear_arith);
    }
    assert(n * q == q * n) by (nonlinear_arith);
}

proof fn lemma_groups_union(usable: int, n: int, k: int)
    requires
        usable >= 0,
        n > 0,
        0 <= k <= n,
    ensures
        groups_union(usable, n, k) == set_int_range(0, group_start(usable, n, k)),
    decreases k,
{
    lemma_group_start_facts(usable, n);
    if k == 0 {
        assert(groups_union(usable, n, 0) =~= set_int_range(0, 0));
    } else {
        lemma_groups_union(usable, n, k - 1);
        assert(group_start(usable, n, k - 1) <= group_start(usable, n, k));
        assert(groups_union(usable, n, k) =~= set_int_range(0, group_start(usable, n, k)));
    }
}

/// Splitting the CPUs left after the reserved margin into `num_groups`
/// contiguous groups: the groups are pairwise disjoint, and together they
/// hold exactly the CPUs `[0, total_cpus - reserved_margin)`, that is
/// `total_cpus - reserved_margin` CPUs.
pub proof fn lemma_partition_covers(total_cpus: int, reserved_margin: int, num_groups: int)
    requires
        total_cpus > reserved_margin,
        reserved_margin >= 0,
        num_groups > 0,
    ensures
        forall|i: int, j: int|
            0 <= i < j < num_groups ==> #[trigger] group_range(
                total_cpus - reserved_margin,
                num_groups,
                i,
            ).disjoint(#[trigger] group_range(total_cpus - reserved_margin, num_groups, j)),
        groups_union(total_cpus - reserved_margin, num_groups, num_groups) == set_int_range(
            0,
            total_cpus - reserved_margin,
        ),
        groups_union(total_cpus - reserved_margin, num_groups, num_groups).len() == total_cpus
            - reserved_margin,
{
    let u = total_cpus - reserved_margin;
    lemma_group_start_facts(u, num_groups);
    lemma_groups_union(u, num_groups, num_groups);
    lemma_int_range(0, u);
    assert forall|i: int, j: int| 0 <= i < j < num_groups implies #[trigger] group_range(
        u,
        num_groups,
        i,
    ).disjoint(#[trigger] group_range(u, num_groups, j)) by {
        assert(group_start(u, num_groups, i + 1) <= group_start(u, num_groups, j));
    }
}

fn group_start_exec(usable: usize, n: usize, i: usize) -> (r: usize)
    requires
        n > 0,
        i <= n,
    ensures
        r == group_start(usable as int, n as int, i as int),
{
    proof {
        lemma_group_start_facts(usable as int, n as int);
        assert(group_start(usable as int, n as int, i as int) <= group_start(
            usable as int,
            n as int,
            n as int,
        ));
    }
    let q = usable / n;
    let r = usable % n;
    let extra = if i < r {
        i
    } else {
        r
    };
    i * q + extra
}

/// What splitting `total_cpus` CPUs with `reserved_margin` of them reserved
/// into `num_groups` groups gives: an error when no group is asked for or no
/// CPU is left, else the even contiguous split of the CPUs that are left.
pub open spec fn partition_outcome(
    r: Result<Topology, TopologyError>,
    total_cpus: usize,
    reserved_margin: usize,
    num_groups: usize,
) -> bool {
    if num_groups == 0 {
        r == Err::<Topology, TopologyError>(TopologyError::NoGroups)
    } else if total_cpus <= reserved_margin {
        r == Err::<Topology, TopologyError>(
            TopologyError::InsufficientResources {
                detected: total_cpus,
                required: if reserved_margin < usize::MAX {
                    (reserved_margin + 1) as usize
                } else {
                    usize::MAX
                },
            },
        )
    } else {
        r matches Ok(t) && t.wf() && t.usable_cpus == total_cpus - reserved_margin
            && t.groups@.len() == num_groups
    }
}

/// Splits the CPUs `[0, total_cpus - reserved_margin)` into `num_groups`
/// contiguous groups of sizes as even as possible; the reserved CPUs at the
/// top are left to the host.
pub fn partition_cpus(total_cpus: usize, reserved_margin: usize, num_groups: usize) -> (r: Result<
    Topology,
    TopologyError,
>)
    ensures
        partition_outcome(r, total_cpus, reserved_margin, num_groups),
{
    if num_groups == 0 {
        return Err(TopologyError::NoGroups);
    }
    if total_cpus <= reserved_margin {
        return Err(
            TopologyError::InsufficientResources {
                detected: total_cpus,
                required: reserved_margin.saturating_add(1),
            },
        );
    }
    let usable = total_cpus - reserved_margin;
    let mut groups: Vec<CpuGroup> = Vec::new();
    let mut i: usize = 0;
    while i < num_groups
        invariant
            num_groups > 0,
            i <= num_groups,
            groups@.len() == i,
            forall|k: int|
                0 <= k < i ==> {
                    let g = #[trigger] groups@[k];
                    &&& g.group_id == k
                    &&& g.numa_node == k
                    &&& g.start == group_start(usable as int, num_groups as int, k)
                    &&& g.end == group_start(usable as int, num_groups as int, k + 1)
                },
        decreases num_groups - i,
    {
        let start = group_start_exec(usable, num_groups, i);
        let end = group_start_exec(usable, num_groups, i + 1);
        groups.push(CpuGroup { group_id: i, start, end, numa_node: i });
        i = i + 1;
    }
    Ok(Topology { groups, usable_cpus: usable })
}

/// What forming the topology for `workers` workers on `cpu_count` CPUs
/// gives: an error that names both counts when the CPUs cannot hold the
/// workers and the margin, else the split of the CPUs left after the margin.
pub open spec fn detect_outcome(
    r: Result<Topology, TopologyError>,
    cpu_count: usize,
    workers: usize,
    reserved_margin: usize,
    num_groups: usize,
) -> bool {
    if cpu_count < workers + reserved_margin {
        r == Err::<Topology, TopologyError>(
            TopologyError::InsufficientResources {
                detected: cpu_count,
                required: if workers + reserved_margin <= usize::MAX {
                    (workers + reserved_margin) as usize
                } else {
                    usize::MAX
                },
            },
        )
    } else {
        partition_outcome(r, cpu_count, reserved_margin, num_groups)
    }
}

/// Forms the topology for `workers` mining workers on `cpu_count` logical
/// CPUs, of which `reserved_margin` stay with the host. Fails before anything
/// is placed when the CPUs cannot hold the workers and the margin.
pub fn detect_topology(
    cpu_count: usize,
    workers: usize,
    reserved_margin: usize,
    num_groups: usize,
) -> (r: Result<Topology, TopologyError>)
    ensures
        detect_outcome(r, cpu_count, workers, reserved_margin, num_groups),
{
    if cpu_count < workers || cpu_count - workers < reserved_margin {
        let required = workers.saturating_add(reserved_margin);
        return Err(TopologyError::InsufficientResources { detected: cpu_count, required });
    }
    partition_cpus(cpu_count, reserved_margin, num_groups)
}

/// Relies on num_cpus::get: the number of logical CPUs that this process may
/// run on, which its documentation says is always at least 1.
#[verifier::external_body]
fn logical_cpu_count() -> (r: usize)
    ensures
        r >= 1,
{
    num_cpus::get()
}

/// Forms the topology for this host's logical CPUs.
pub fn detect_host_topology(workers: usize, reserved_margin: usize, num_groups: usize) -> (r:
    Result<Topology, TopologyError>)
    ensures
        exists|cpu_count: usize|
            cpu_count >= 1 && #[trigger] detect_outcome(
                r,
                cpu_count,
                workers,
                reserved_margin,
                num_groups,
            ),
{
    let cpu_count = logical_cpu_count();
    let r = detect_topology(cpu_count, workers, reserved_margin, num_groups);
    assert(detect_outcome(r, cpu_count, workers, reserved_margin, num_groups));
    r
}

/// Where a worker of a group runs.
#[derive(Clone, Copy, Debug, PartialEq, Eq, Structural)]
pub struct WorkerPlacement {
    pub worker_id: usize,
    pub group_id: usize,
    pub cpu_id: usize,
    pub numa_node: usize,
}

/// Why a group's workers could not be placed.
#[derive(Clone, Copy, Debug, PartialEq, Eq, Structural)]
pub enum PlacementError {
    /// The topology has no group of that number.
    UnknownGroup,
    /// The group holds no CPU.
    EmptyGroup,
}

/// The CPU of the group that worker `worker_index` of it is pinned to: the
/// workers wrap round the group's CPUs and never leave the group.
pub open spec fn worker_cpu(g: CpuGroup, worker_index: int) -> int {
    g.start + worker_index % (g.end - g.start)
}

/// Maps a worker's index within its group to a CPU of the group.
pub fn cpu_for_worker(group: &CpuGroup, worker_index: usize) -> (r: usize)
    requires
        group.start < group.end,
    ensures
        r == worker_cpu(*group, worker_index as int),
        group.start <= r < group.end,
{
    group.start + worker_index % (group.end - group.start)
}

impl Topology {
    /// Places `count` workers on group `group_id`; worker `i` of the group
    /// gets the global id `group_id * threads_per_group + i`.
    pub fn plan_group(&self, group_id: usize, count: usize, threads_per_group: usize) -> (r:
        Result<Vec<WorkerPlacement>, PlacementError>)
        requires
            group_id * threads_per_group + count <= usize::MAX,
        ensures
            group_id >= self.groups@.len() ==> r == Err::<Vec<WorkerPlacement>, PlacementError>(
                PlacementError::UnknownGroup,
            ),
            group_id < self.groups@.len() && self.groups@[group_id as int].start
                >= self.groups@[group_id as int].end ==> r == Err::<
                Vec<WorkerPlacement>,
                PlacementError,
            >(PlacementError::EmptyGroup),
            group_id < self.groups@.len() && self.groups@[group_id as int].start
                < self.groups@[group_id as int].end ==> (r matches Ok(v) && v@.len() == count
                && forall|i: int|
                0 <= i < count ==> #[trigger] v@[i] == (WorkerPlacement {
                    worker_id: (group_id * threads_per_group + i) as usize,
                    group_id,
                    cpu_id: worker_cpu(self.groups@[group_id as int], i) as usize,
                    numa_node: self.groups@[group_id as int].numa_node,
                })),
    {
        if group_id >= self.groups.len() {
            return Err(PlacementError::UnknownGroup);
        }
        let group = self.groups[group_id];
        if group.start >= group.end {
            return Err(PlacementError::EmptyGroup);
        }
        assert(group_id * threads_per_group <= usize::MAX);
        let base = group_id * threads_per_group;
        let mut placements: Vec<WorkerPlacement> = Vec::new();
        let mut i: usize = 0;
        while i < count
            invariant
                base == group_id * threads_per_group,
                base + count <= usize::MAX,
                group == self.groups@[group_id as int],
                group.start < group.end,
                i <= count,
                placements@.len() == i,
                forall|k: int|
                    0 <= k < i ==> #[trigger] placements@[k] == (WorkerPlacement {
                        worker_id: (group_id * threads_per_group + k) as usize,
                        group_id,
                        cpu_id: worker_cpu(group, k) as usize,
                        numa_node: group.numa_node,
                    }),
            decreases count - i,
        {
            let cpu_id = cpu_for_worker(&group, i);
            placements.push(
                WorkerPlacement { worker_id: base + i, group_id, cpu_id, numa_node: group.numa_node },
            );
            i = i + 1;
        }
        Ok(placements)
    }
}

/// Cores in one compute complex of the single-socket layout.
pub const ZEN4_CCD_SIZE: usize = 8;

/// Physical cores of the single-socket layout; the hyperthread sibling of
/// core `c` is logical CPU `c + EPYC_9B14_CORES`.
pub const EPYC_9B14_CORES: usize = 32;

/// Logical CPU for thread `thread_id` of compute complex `ccd_id`: the
/// complex's physical cores first, then their hyperthread siblings.
pub fn calculate_cpu_affinity(ccd_id: usize, thread_id: usize) -> (r: usize)
    requires
        ccd_id * ZEN4_CCD_SIZE + (ZEN4_CCD_SIZE - 1) + EPYC_9B14_CORES <= usize::MAX,
    ensures
        r as int == ccd_id * ZEN4_CCD_SIZE + (thread_id % ZEN4_CCD_SIZE) as int + (if thread_id
            < ZEN4_CCD_SIZE {
            0
        } else {
            EPYC_9B14_CORES as int
        }),
{
    let physical_core = ccd_id * ZEN4_CCD_SIZE + (thread_id % ZEN4_CCD_SIZE);
    if thread_id < ZEN4_CCD_SIZE {
        physical_core
    } else {
        physical_core + EPYC_9B14_CORES
    }
}

/// Places `count` workers on compute complex `ccd_id` of the single-socket
/// layout: worker `i` gets the global id `ccd_id * per_ccd + i` and the CPU
/// that `calculate_cpu_affinity` gives it; the memory node is the socket's.
pub fn plan_ccd_group(ccd_id: usize, count: usize, per_ccd: usize) -> (r: Vec<WorkerPlacement>)
    requires
        ccd_id * ZEN4_CCD_SIZE + (ZEN4_CCD_SIZE - 1) + EPYC_9B14_CORES <= usize::MAX,
        ccd_id * per_ccd + count <= usize::MAX,
    ensures
        r@.len() == count,
        forall|i: int|
            0 <= i < count ==> (#[trigger] r@[i]).worker_id == ccd_id * per_ccd + i
                && r@[i].group_id == ccd_id && r@[i].numa_node == 0 && r@[i].cpu_id as int
                == ccd_id * ZEN4_CCD_SIZE + (i % (ZEN4_CCD_SIZE as int)) + (if i < ZEN4_CCD_SIZE {
                0
            } else {
                EPYC_9B14_CORES as int
            }),
{
    assert(ccd_id * per_ccd <= usize::MAX);
    let base = ccd_id * per_ccd;
    let mut placements: Vec<WorkerPlacement> = Vec::new();
    let mut i: usize = 0;
    while i < count
        invariant
            base == ccd_id * per_ccd,
            base + count <= usize::MAX,
            ccd_id * ZEN4_CCD_SIZE + (ZEN4_CCD_SIZE - 1) + EPYC_9B14_CORES <= usize::MAX,
            i <= count,
            placements@.len() == i,
            forall|k: int|
                0 <= k < i ==> (#[trigger] placements@[k]).worker_id == ccd_id * per_ccd + k
                    && placements@[k].group_id == ccd_id && placements@[k].numa_node == 0
                    && placements@[k].cpu_id as int == ccd_id * ZEN4_CCD_SIZE + (k % (
                ZEN4_CCD_SIZE as int)) + (if k < ZEN4_CCD_SIZE {
                    0
                } else {
                    EPYC_9B14_CORES as int
                }),
        decreases count - i,
    {
        let cpu_id = calculate_cpu_affinity(ccd_id, i);
        placements.push(WorkerPlacement { worker_id: base + i, group_id: ccd_id, cpu_id, numa_node: 0 });
        i = i + 1;
    }
    placements
}

/// Cores per memory node of the four-node layout.
pub const BATCH_SIZE_PER_NUMA_NODE: u64 = 24;

/// Logical CPU for worker `thread_id` in the four-node layout: its node
/// `thread_id / 24` and its place `thread_id % 24` in the node, which
/// together give back the worker's own number.
pub fn numa_logical_core(thread_id: u64) -> (r: u64)
    ensures
        r == thread_id,
{
    let numa_node = thread_id / BATCH_SIZE_PER_NUMA_NODE;
    let core_in_node = thread_id % BATCH_SIZE_PER_NUMA_NODE;
    proof {
        vstd::arithmetic::div_mod::lemma_fundamental_div_mod(
            thread_id as int,
            BATCH_SIZE_PER_NUMA_NODE as int,
        );
    }
    numa_node * BATCH_SIZE_PER_NUMA_NODE + core_in_node
}

} // verus!
