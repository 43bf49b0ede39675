use epyc_mining::pool::{PoolDecision, PoolSupervisor, WorkerExit};

#[test]
fn refresh_exits_are_respawned() {
    let mut p = PoolSupervisor::new(2, 1);
    assert_eq!(p.on_worker_exit(0, WorkerExit::Refresh), PoolDecision::Respawn);
    assert_eq!(p.on_worker_exit(1, WorkerExit::Stopped), PoolDecision::Retire);
}

#[test]
fn repeated_crashes_are_surfaced() {
    let mut p = PoolSupervisor::new(2, 2);
    assert_eq!(p.on_worker_exit(1, WorkerExit::Crashed), PoolDecision::Respawn);
    assert_eq!(p.on_worker_exit(1, WorkerExit::Crashed), PoolDecision::Respawn);
    assert_eq!(p.on_worker_exit(0, WorkerExit::Crashed), PoolDecision::Respawn);
    assert_eq!(p.on_worker_exit(1, WorkerExit::Crashed), PoolDecision::Surface);
}

#[test]
fn shutdown_is_idempotent_and_stops_respawns() {
    let mut p = PoolSupervisor::new(1, 5);
    assert!(!p.is_stopping());
    assert!(p.request_shutdown());
    assert!(!p.request_shutdown());
    assert!(p.is_stopping());
    assert_eq!(p.on_worker_exit(0, WorkerExit::Refresh), PoolDecision::Retire);
    assert_eq!(p.on_worker_exit(0, WorkerExit::Crashed), PoolDecision::Retire);
}
