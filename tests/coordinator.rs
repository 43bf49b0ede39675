use epyc_mining::coordinator::{
    create_optimized_poke, AttemptReport, CandidateData, Coordinator, Outcome, PublishAction,
};
use epyc_mining::field::PRIME;
use epyc_mining::nonce::{generate_optimized_nonce, nonce_from_draws, NONCE_LANES};

fn candidate(tag: u8) -> CandidateData {
    CandidateData { version: vec![1], header: vec![tag; 4], target: vec![9, 9], pow_len: 64 }
}

fn report(worker_id: usize, generation_id: u64, outcome: Outcome) -> AttemptReport {
    AttemptReport { worker_id, generation_id, outcome }
}

fn solution() -> Outcome {
    Outcome::Solution { header_hash: vec![5, 6], proof_payload: vec![7] }
}

#[test]
fn one_solution_among_four_workers_is_relayed_once() {
    let mut c = Coordinator::new(4, 0);
    assert_eq!(c.publish_candidate(candidate(1)), PublishAction::StartWorkers { count: 4 });
    for w in 0..4 {
        let a = c.dispatch_new_worker(&generate_optimized_nonce(w as u64, 0));
        assert_eq!(a.worker_id, w);
        assert_eq!(a.generation_id, 1);
    }
    let mut relayed = 0;
    for (w, outcome) in [(0, Outcome::NonSolution), (1, Outcome::NonSolution), (2, solution()), (3, Outcome::NonSolution)] {
        let action = c.handle_report(report(w, 1, outcome));
        if let Some(sol) = action.relay {
            relayed += 1;
            assert_eq!(sol.worker_id, 2);
            assert_eq!(sol.header_hash, vec![5, 6]);
            assert_eq!(sol.proof_payload, vec![7]);
        }
        let next = action.next.unwrap();
        assert_eq!(next.worker_id, w);
        assert_eq!(next.generation_id, 1);
    }
    assert_eq!(relayed, 1);
    assert_eq!(c.worker_count(), 4);
    for w in 0..4 {
        assert_eq!(c.in_flight_generation(w), Some(1));
    }
}

#[test]
fn results_of_a_superseded_candidate_are_discarded() {
    let mut c = Coordinator::new(3, 17);
    c.publish_candidate(candidate(1));
    for w in 0..3 {
        c.dispatch_new_worker(&vec![w as u64]);
    }
    assert_eq!(c.publish_candidate(candidate(2)), PublishAction::CancelInFlight { superseded: 1 });
    assert_eq!(c.generation(), 2);
    for (w, outcome) in [(0, solution()), (1, Outcome::NonSolution), (2, Outcome::Cancelled)] {
        let action = c.handle_report(report(w, 1, outcome));
        assert!(action.relay.is_none());
        let next = action.next.unwrap();
        assert_eq!(next.generation_id, 2);
        assert_eq!(next.poke.header, vec![2; 4]);
    }
    let action = c.handle_report(report(0, 2, solution()));
    assert_eq!(action.relay.unwrap().generation_id, 2);
}

#[test]
fn generation_increases_with_every_replacement() {
    let mut c = Coordinator::new(1, 0);
    let mut last = c.generation();
    for tag in 0..5 {
        c.publish_candidate(candidate(tag));
        assert!(c.generation() > last);
        last = c.generation();
    }
    assert_eq!(last, 5);
}

#[test]
fn reports_that_answer_nothing_change_nothing() {
    let mut c = Coordinator::new(1, 0);
    c.publish_candidate(candidate(1));
    c.dispatch_new_worker(&vec![1]);
    let action = c.handle_report(report(5, 1, solution()));
    assert!(action.relay.is_none() && action.next.is_none());
    let action = c.handle_report(report(0, 7, solution()));
    assert!(action.relay.is_none() && action.next.is_none());
    assert_eq!(c.in_flight_generation(0), Some(1));
    assert_eq!(c.in_flight_generation(1), None);
}

#[test]
fn poke_carries_candidate_and_nonce() {
    let d = candidate(3);
    let p = create_optimized_poke(&d, &vec![11, 12]);
    assert_eq!(p.version, vec![1]);
    assert_eq!(p.header, vec![3; 4]);
    assert_eq!(p.nonce, vec![11, 12]);
    assert_eq!(p.target, vec![9, 9]);
    assert_eq!(p.pow_len, 64);
}

#[test]
fn nonce_lanes_mix_worker_entropy_and_draws() {
    let draws = [0u64, 1, 2, 3, u64::MAX, 5, 6, 7];
    let n = nonce_from_draws(3, 99, &draws);
    assert_eq!(n.len(), NONCE_LANES);
    for i in 0..NONCE_LANES {
        let seed = 3u64.wrapping_mul(0x517c_c1b7_2722_0a95) ^ 99;
        let lane = seed.wrapping_add((i as u64).wrapping_mul(0x9e37_79b9_7f4a_7c15));
        assert_eq!(n[i], (lane ^ draws[i]) % PRIME);
    }
    let fresh = generate_optimized_nonce(3, 99);
    assert_eq!(fresh.len(), NONCE_LANES);
    assert!(fresh.iter().all(|v| *v < PRIME));
}

#[test]
fn coordinator_is_idle_until_the_first_candidate() {
    let mut c = Coordinator::new(2, 0);
    assert!(!c.is_active());
    assert_eq!(c.generation(), 0);
    assert_eq!(c.worker_count(), 0);
    c.publish_candidate(candidate(4));
    assert!(c.is_active());
    let a = c.dispatch_new_worker(&vec![1, 2, 3]);
    assert_eq!(a.poke.nonce, vec![1, 2, 3]);
    assert_eq!(a.poke.header, vec![4; 4]);
    let action = c.handle_completion(report(0, 1, Outcome::NonSolution), &vec![8, 9]);
    assert!(action.relay.is_none());
    assert_eq!(action.next.unwrap().poke.nonce, vec![8, 9]);
}

#[test]
fn fresh_nonces_differ_between_calls() {
    let a = generate_optimized_nonce(1, 0);
    let b = generate_optimized_nonce(1, 0);
    assert_ne!(a, b);
}
