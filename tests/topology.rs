use epyc_mining::topology::{
    calculate_cpu_affinity, cpu_for_worker, detect_topology, numa_logical_core, partition_cpus,
    plan_ccd_group, CpuGroup, PlacementError, TopologyError,
};

#[test]
fn partition_covers_usable_cpus_disjointly() {
    for (total, margin, groups) in [(192usize, 4usize, 2usize), (10, 0, 3), (7, 2, 5), (3, 1, 4)] {
        let t = partition_cpus(total, margin, groups).unwrap();
        assert_eq!(t.usable_cpus, total - margin);
        assert_eq!(t.groups.len(), groups);
        let mut seen = vec![false; total];
        let mut count = 0;
        for (i, g) in t.groups.iter().enumerate() {
            assert_eq!(g.group_id, i);
            for cpu in g.start..g.end {
                assert!(!seen[cpu]);
                seen[cpu] = true;
                count += 1;
            }
        }
        assert_eq!(count, total - margin);
        assert!(seen[total - margin..].iter().all(|s| !s));
    }
}

#[test]
fn partition_sizes_are_even() {
    let t = partition_cpus(10, 0, 3).unwrap();
    let sizes: Vec<usize> = t.groups.iter().map(|g| g.end - g.start).collect();
    assert_eq!(sizes, vec![4, 3, 3]);
    let t = partition_cpus(192, 4, 2).unwrap();
    assert_eq!((t.groups[0].start, t.groups[0].end), (0, 94));
    assert_eq!((t.groups[1].start, t.groups[1].end), (94, 188));
}

#[test]
fn partition_errors() {
    assert_eq!(partition_cpus(8, 0, 0).err(), Some(TopologyError::NoGroups));
    assert_eq!(
        partition_cpus(4, 4, 2).err(),
        Some(TopologyError::InsufficientResources { detected: 4, required: 5 })
    );
}

#[test]
fn detect_rejects_too_few_cpus() {
    assert_eq!(
        detect_topology(64, 188, 4, 2).err(),
        Some(TopologyError::InsufficientResources { detected: 64, required: 192 })
    );
    let t = detect_topology(192, 188, 4, 2).unwrap();
    assert_eq!(t.usable_cpus, 188);
}

#[test]
fn workers_wrap_within_their_group() {
    let g = CpuGroup { group_id: 1, start: 96, end: 100, numa_node: 1 };
    assert_eq!(cpu_for_worker(&g, 0), 96);
    assert_eq!(cpu_for_worker(&g, 3), 99);
    assert_eq!(cpu_for_worker(&g, 4), 96);
    assert_eq!(cpu_for_worker(&g, 9), 97);
}

#[test]
fn plan_group_places_workers() {
    let t = partition_cpus(12, 2, 2).unwrap();
    let plan = t.plan_group(1, 7, 7).unwrap();
    assert_eq!(plan.len(), 7);
    assert_eq!(plan[0].worker_id, 7);
    assert_eq!(plan[0].cpu_id, 5);
    assert_eq!(plan[5].cpu_id, 5);
    assert_eq!(plan[6].cpu_id, 6);
    assert_eq!(plan[6].numa_node, 1);
    assert_eq!(t.plan_group(2, 1, 1).err(), Some(PlacementError::UnknownGroup));
    let sparse = partition_cpus(3, 2, 2).unwrap();
    assert_eq!(sparse.plan_group(1, 1, 1).err(), Some(PlacementError::EmptyGroup));
}

#[test]
fn ccd_affinity_prefers_physical_cores() {
    assert_eq!(calculate_cpu_affinity(0, 0), 0);
    assert_eq!(calculate_cpu_affinity(1, 7), 15);
    assert_eq!(calculate_cpu_affinity(2, 8), 48);
    assert_eq!(calculate_cpu_affinity(3, 14), 62);
    let plan = plan_ccd_group(1, 15, 15);
    assert_eq!(plan.len(), 15);
    assert_eq!(plan[0].worker_id, 15);
    assert_eq!(plan[9].cpu_id, 41);
}

#[test]
fn numa_layout_keeps_worker_number() {
    for t in [0u64, 23, 24, 95, 187, u64::MAX] {
        assert_eq!(numa_logical_core(t), t);
    }
}

#[test]
fn group_length_counts_its_cpus() {
    let t = partition_cpus(192, 4, 2).unwrap();
    assert_eq!(t.groups[0].len(), 94);
    assert_eq!(t.groups[1].numa_node, 1);
}

#[test]
fn host_topology_uses_the_host_cpu_count() {
    let cpus = num_cpus::get();
    let t = epyc_mining::topology::detect_host_topology(0, 0, 1).unwrap();
    assert_eq!(t.usable_cpus, cpus);
    assert_eq!((t.groups[0].start, t.groups[0].end), (0, cpus));
    assert_eq!(
        epyc_mining::topology::detect_host_topology(cpus + 1, 0, 1).err(),
        Some(TopologyError::InsufficientResources { detected: cpus, required: cpus + 1 })
    );
}
