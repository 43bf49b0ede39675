use epyc_mining::worker::{
    dual_socket_schedule, mining_prefetch_offsets, restart_due, single_socket_schedule,
    zen3_dual_socket_hash, zen3_prefetch_offset, zen4_avx512_hash_batch, zen4_prefetch_offsets,
    WorkerLoopState,
};

#[test]
fn loop_checks_fall_on_their_periods() {
    let schedule = dual_socket_schedule();
    let mut s = WorkerLoopState::new();
    let mut reports = 0;
    let mut restarts = 0;
    let mut pauses = 0;
    for _ in 0..100_000 {
        let c = s.after_iteration(64, &schedule);
        reports += c.report_due as u32;
        restarts += c.restart_check_due as u32;
        pauses += c.pause_due as u32;
    }
    assert_eq!((reports, restarts, pauses), (2, 1, 5));
    assert_eq!(s.local_hash_count, 6_400_000);
    assert_eq!(s.take_report(4_999, &schedule), None);
    assert_eq!(s.take_report(10_000, &schedule), Some(640_000));
    assert_eq!(s.local_hash_count, 0);
    let single = single_socket_schedule();
    let c = s.after_iteration(8, &single);
    assert!(!c.report_due);
}

#[test]
fn restart_only_after_the_interval() {
    assert!(!restart_due(true, 300_000, 300_000));
    assert!(restart_due(true, 300_001, 300_000));
    assert!(!restart_due(false, 900_000, 300_000));
}

#[test]
fn dual_hash_step_offsets_by_socket() {
    let mut buffer = vec![0u64; 4];
    let mut cache = vec![0u8; 16];
    zen3_dual_socket_hash(&mut buffer, &mut cache, 1);
    assert_eq!(buffer[0], 0x1234_5678_9ABC_DEF0 + (1u64 << 32));
    assert_eq!(buffer[3], 0x1234_5678_9ABC_DEF0 + (1u64 << 32) + 3);
    // lanes 0 and 2 share slot 0; the later one wins
    assert_eq!(cache[0], (buffer[2] & 0xFF) as u8);
    assert_eq!(cache[8], (buffer[3] & 0xFF) as u8);
    assert_eq!(cache[1], 0);
}

#[test]
fn single_hash_step_skips_partial_tail() {
    let mut buffer: Vec<u64> = (0..10).collect();
    zen4_avx512_hash_batch(&mut buffer);
    assert_eq!(buffer[7], 7 + 0x1234_5678_9ABC_DEF0);
    assert_eq!(buffer[8], 8);
    assert_eq!(buffer[9], 9);
}

#[test]
fn prefetch_offsets_stay_in_bounds() {
    assert_eq!(zen3_prefetch_offset(33, 2048), Some(64));
    assert_eq!(zen3_prefetch_offset(31, 1024), None);
    assert_eq!(zen4_prefetch_offsets(63, 4096), (Some(4032), None));
    assert_eq!(zen4_prefetch_offsets(1, 4096), (Some(64), Some(128)));
    assert_eq!(zen4_prefetch_offsets(10, 128), (None, None));
    assert_eq!(mining_prefetch_offsets(10, 1), (Some(1), Some(9)));
    assert_eq!(mining_prefetch_offsets(10, 2), (Some(2), None));
    assert_eq!(mining_prefetch_offsets(10, 10), (None, None));
}
