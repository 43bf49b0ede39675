//! The candidate coordinator: it owns the current candidate, tags every
//! dispatched attempt with the candidate's generation, and decides what each
//! completed attempt leads to.
use vstd::prelude::*;
use crate::nonce::{generate_optimized_nonce, NONCE_LANES};

verus! {

/// A block template as the host node delivers it.
pub struct CandidateData {
    pub version: Vec<u8>,
    pub header: Vec<u8>,
    pub target: Vec<u8>,
    pub pow_len: u64,
}

/// The published candidate: the node's template and its generation.
pub struct Candidate {
    pub data: CandidateData,
    pub generation_id: u64,
}

/// What one attempt hands to the proof program: the candidate's fields and
/// the nonce, in the order `[version header nonce target pow_len]`.
pub struct Poke {
    pub version: Vec<u8>,
    pub header: Vec<u8>,
    pub nonce: Vec<u64>,
    pub target: Vec<u8>,
    pub pow_len: u64,
}

/// One dispatched unit of work, tagged with the generation it runs against.
pub struct Attempt {
    pub worker_id: usize,
    pub generation_id: u64,
    pub poke: Poke,
}

/// How an attempt ended.
pub enum Outcome {
    /// The attempt was cancelled before it finished.
    Cancelled,
    /// The attempt found no proof under the target.
    NonSolution,
    /// The attempt found a proof.
    Solution { header_hash: Vec<u64>, proof_payload: Vec<u8> },
}

/// A worker's report on a finished attempt.
pub struct AttemptReport {
    pub worker_id: usize,
    pub generation_id: u64,
    pub outcome: Outcome,
}

/// A solution to relay to the host node.
pub struct Solution {
    pub worker_id: usize,
    pub generation_id: u64,
    pub header_hash: Vec<u64>,
    pub proof_payload: Vec<u8>,
}

/// What publishing a candidate asks of the worker pool.
#[derive(Clone, Copy, Debug, PartialEq, Eq, Structural)]
pub enum PublishAction {
    /// No worker runs yet: start this many, each with an initial attempt.
    StartWorkers { count: usize },
    /// Workers run: cancel their attempts, which carry the old generation.
    CancelInFlight { superseded: u64 },
}

/// What a report leads to.
pub struct CompletionAction {
    /// The solution to relay upward, at most one per report.
    pub relay: Option<Solution>,
    /// The worker's next attempt, under the current generation.
    pub next: Option<Attempt>,
}

/// The poke for `nonce` against candidate data `d`.
pub open spec fn poke_for(p: Poke, d: CandidateData, nonce: Seq<u64>) -> bool {
    &&& p.version@ == d.version@
    &&& p.header@ == d.header@
    &&& p.nonce@ == nonce
    &&& p.target@ == d.target@
    &&& p.pow_len == d.pow_len
}

fn copy_bytes(v: &Vec<u8>) -> (r: Vec<u8>)
    ensures
        r@ == v@,
{
    let mut r: Vec<u8> = Vec::new();
    let mut i: usize = 0;
    while i < v.len()
        invariant
            i <= v@.len(),
            r@ == v@.subrange(0, i as int),
        decreases v@.len() - i,
    {
        r.push(v[i]);
        assert(v@.subrange(0, i + 1) =~= v@.subrange(0, i as int).push(v@[i as int]));
        i = i + 1;
    }
    assert(v@.subrange(0, v@.len() as int) =~= v@);
    r
}

/// Builds the poke for one attempt from the candidate and a nonce.
pub fn create_optimized_poke(mining_data: &CandidateData, nonce: &Vec<u64>) -> (r: Poke)
    ensures
        poke_for(r, *mining_data, nonce@),
{
    let mut n: Vec<u64> = Vec::new();
    let mut i: usize = 0;
    while i < nonce.len()
        invariant
            i <= nonce@.len(),
            n@ == nonce@.subrange(0, i as int),
        decreases nonce@.len() - i,
    {
        n.push(nonce[i]);
        assert(nonce@.subrange(0, i + 1) =~= nonce@.subrange(0, i as int).push(nonce@[i as int]));
        i = i + 1;
    }
    assert(nonce@.subrange(0, nonce@.len() as int) =~= nonce@);
    Poke {
        version: copy_bytes(&mining_data.version),
        header: copy_bytes(&mining_data.header),
        nonce: n,
        target: copy_bytes(&mining_data.target),
        pow_len: mining_data.pow_len,
    }
}

/// The coordinator's state.
pub struct Coordinator {
    current: Option<Candidate>,
    generation: u64,
    worker_target: usize,
    base_entropy: u64,
    in_flight: Vec<u64>,
}

impl Coordinator {
    /// The generation of the current candidate; 0 while none is published.
    pub closed spec fn spec_generation(&self) -> u64 {
        self.generation
    }

    /// The current candidate's data, if one is published.
    pub closed spec fn spec_current(&self) -> Option<CandidateData> {
        match self.current {
            Some(c) => Some(c.data),
            None => None,
        }
    }

    /// The generation of each running worker's attempt in flight, by worker.
    pub closed spec fn spec_in_flight(&self) -> Seq<u64> {
        self.in_flight@
    }

    /// How many workers the first candidate starts.
    pub closed spec fn spec_worker_target(&self) -> usize {
        self.worker_target
    }

    /// The entropy that fresh nonces are mixed with.
    pub closed spec fn spec_base_entropy(&self) -> u64 {
        self.base_entropy
    }

    /// A candidate is published exactly when the generation is positive, the
    /// published candidate carries the current generation, and every attempt
    /// in flight was dispatched under a published generation no newer than
    /// the current one.
    pub closed spec fn wf(&self) -> bool {
        &&& (self.generation == 0 <==> self.current is None)
        &&& (self.current matches Some(c) ==> c.generation_id == self.generation)
        &&& forall|w: int|
            0 <= w < self.in_flight@.len() ==> 1 <= #[trigger] self.in_flight@[w]
                <= self.generation
    }

    /// An idle coordinator that will start `worker_target` workers.
    pub fn new(worker_target: usize, base_entropy: u64) -> (r: Coordinator)
        ensures
            r.wf(),
            r.spec_generation() == 0,
            r.spec_current() is None,
            r.spec_in_flight() == Seq::<u64>::empty(),
            r.spec_worker_target() == worker_target,
            r.spec_base_entropy() == base_entropy,
    {
        Coordinator { current: None, generation: 0, worker_target, base_entropy, in_flight: Vec::new() }
    }

    /// The current generation.
    pub fn generation(&self) -> (r: u64)
        ensures
            r == self.spec_generation(),
    {
        self.generation
    }

    /// Number of workers that have been started.
    pub fn worker_count(&self) -> (r: usize)
        ensures
            r == self.spec_in_flight().len(),
    {
        self.in_flight.len()
    }

    /// The generation of worker `worker_id`'s attempt in flight.
    pub fn in_flight_generation(&self, worker_id: usize) -> (r: Option<u64>)
        ensures
            worker_id < self.spec_in_flight().len() ==> r == Some(
                self.spec_in_flight()[worker_id as int],
            ),
            worker_id >= self.spec_in_flight().len() ==> r is None,
    {
        if worker_id < self.in_flight.len() {
            Some(self.in_flight[worker_id])
        } else {
            None
        }
    }

    /// Whether a candidate is published.
    pub fn is_active(&self) -> (r: bool)
        requires
            self.wf(),
        ensures
            r == (self.spec_current() is Some),
    {
        self.current.is_some()
    }

    /// `next` is `self` after publishing `data`: the candidate is replaced
    /// whole, the generation goes up by one, the workers are untouched.
    pub open spec fn publishes_to(&self, next: &Coordinator, data: CandidateData) -> bool {
        &&& next.spec_generation() == self.spec_generation() + 1
        &&& next.spec_current() == Some(data)
        &&& next.spec_in_flight() == self.spec_in_flight()
        &&& next.spec_worker_target() == self.spec_worker_target()
        &&& next.spec_base_entropy() == self.spec_base_entropy()
    }

    /// Publishes a new candidate. The first one starts the workers; a later
    /// one supersedes the running generation, whose attempts are cancelled.
    pub fn publish_candidate(&mut self, data: CandidateData) -> (r: PublishAction)
        requires
            old(self).wf(),
            old(self).spec_generation() < u64::MAX,
        ensures
            final(self).wf(),
            old(self).publishes_to(&*final(self), data),
            old(self).spec_in_flight().len() == 0 ==> r == (PublishAction::StartWorkers {
                count: old(self).spec_worker_target(),
            }),
            old(self).spec_in_flight().len() > 0 ==> r == (PublishAction::CancelInFlight {
                superseded: old(self).spec_generation(),
            }),
    {
        let superseded = self.generation;
        self.generation = self.generation + 1;
        self.current = Some(Candidate { data, generation_id: self.generation });
        if self.in_flight.len() == 0 {
            PublishAction::StartWorkers { count: self.worker_target }
        } else {
            PublishAction::CancelInFlight { superseded }
        }
    }

    /// Starts the next worker with its first attempt, under the current
    /// generation and with the given nonce.
    pub fn dispatch_new_worker(&mut self, nonce: &Vec<u64>) -> (r: Attempt)
        requires
            old(self).wf(),
            old(self).spec_current() is Some,
            old(self).spec_in_flight().len() < usize::MAX,
        ensures
            final(self).wf(),
            final(self).spec_generation() == old(self).spec_generation(),
            final(self).spec_current() == old(self).spec_current(),
            final(self).spec_worker_target() == old(self).spec_worker_target(),
            final(self).spec_base_entropy() == old(self).spec_base_entropy(),
            final(self).spec_in_flight() == old(self).spec_in_flight().push(
                old(self).spec_generation(),
            ),
            r.worker_id == old(self).spec_in_flight().len(),
            r.generation_id == old(self).spec_generation(),
            poke_for(r.poke, old(self).spec_current().unwrap(), nonce@),
    {
        let worker_id = self.in_flight.len();
        let poke = create_optimized_poke(&self.current.as_ref().unwrap().data, nonce);
        self.in_flight.push(self.generation);
        Attempt { worker_id, generation_id: self.generation, poke }
    }
}

impl Coordinator {
    /// Whether a report answers the attempt that its worker has in flight.
    pub open spec fn answers_in_flight(&self, report: AttemptReport) -> bool {
        &&& report.worker_id < self.spec_in_flight().len()
        &&& self.spec_in_flight()[report.worker_id as int] == report.generation_id
    }

    /// Whether a report brings a solution of the current generation.
    pub open spec fn brings_current_solution(&self, report: AttemptReport) -> bool {
        &&& report.generation_id == self.spec_generation()
        &&& report.outcome is Solution
    }

    /// `next` and `action` are what `report` leads to from `self`, with `nonce`
    /// for the worker's next attempt. A report that answers no attempt in
    /// flight changes nothing. Any other report gets its worker a new attempt
    /// under the current generation; only a solution of the current
    /// generation is relayed, so a stale result never reaches the node.
    pub open spec fn completes_to(
        &self,
        next: &Coordinator,
        report: AttemptReport,
        nonce: Seq<u64>,
        action: CompletionAction,
    ) -> bool {
        &&& next.spec_generation() == self.spec_generation()
        &&& next.spec_current() == self.spec_current()
        &&& next.spec_worker_target() == self.spec_worker_target()
        &&& next.spec_base_entropy() == self.spec_base_entropy()
        &&& if !self.answers_in_flight(report) {
            &&& next.spec_in_flight() == self.spec_in_flight()
            &&& action.relay is None
            &&& action.next is None
        } else {
            &&& next.spec_in_flight() == self.spec_in_flight().update(
                report.worker_id as int,
                self.spec_generation(),
            )
            &&& (action.next matches Some(a) && a.worker_id == report.worker_id
                && a.generation_id == self.spec_generation() && poke_for(
                a.poke,
                self.spec_current().unwrap(),
                nonce,
            ))
            &&& if self.brings_current_solution(report) {
                action.relay matches Some(sol) && sol.worker_id == report.worker_id
                    && sol.generation_id == report.generation_id && (report.outcome matches
                Outcome::Solution { header_hash, proof_payload } && sol.header_hash@
                    == header_hash@ && sol.proof_payload@ == proof_payload@)
            } else {
                action.relay is None
            }
        }
    }

    /// Decides what a finished attempt leads to, with `fresh_nonce` for the
    /// worker's next attempt.
    pub fn handle_completion(&mut self, report: AttemptReport, fresh_nonce: &Vec<u64>) -> (r:
        CompletionAction)
        requires
            old(self).wf(),
        ensures
            final(self).wf(),
            old(self).completes_to(&*final(self), report, fresh_nonce@, r),
    {
        let w = report.worker_id;
        if w >= self.in_flight.len() || self.in_flight[w] != report.generation_id {
            return CompletionAction { relay: None, next: None };
        }
        let current_solution = report.generation_id == self.generation;
        let relay = match report.outcome {
            Outcome::Solution { header_hash, proof_payload } => {
                if current_solution {
                    Some(
                        Solution {
                            worker_id: w,
                            generation_id: report.generation_id,
                            header_hash,
                            proof_payload,
                        },
                    )
                } else {
                    None
                }
            },
            _ => None,
        };
        let poke = create_optimized_poke(&self.current.as_ref().unwrap().data, fresh_nonce);
        self.in_flight.set(w, self.generation);
        CompletionAction {
            relay,
            next: Some(Attempt { worker_id: w, generation_id: self.generation, poke }),
        }
    }

    /// Decides what a finished attempt leads to, drawing a fresh nonce for the
    /// worker's next attempt.
    pub fn handle_report(&mut self, report: AttemptReport) -> (r: CompletionAction)
        requires
            old(self).wf(),
        ensures
            final(self).wf(),
            exists|nonce: Seq<u64>|
                nonce.len() == NONCE_LANES && #[trigger] old(self).completes_to(
                    &*final(self),
                    report,
                    nonce,
                    r,
                ),
    {
        let nonce = generate_optimized_nonce(report.worker_id as u64, self.base_entropy);
        let ghost before = *self;
        let ghost rep = report;
        let r = self.handle_completion(report, &nonce);
        assert(before.completes_to(&*self, rep, nonce@, r));
        r
    }
}

/// Across any run of candidate replacements the generation strictly
/// increases: a later state of the run always has a larger generation.
pub proof fn lemma_generation_strictly_increasing(
    run: Seq<Coordinator>,
    candidates: Seq<CandidateData>,
)
    requires
        run.len() == candidates.len() + 1,
        forall|i: int|
            0 <= i < candidates.len() ==> #[trigger] run[i].publishes_to(
                &run[i + 1],
                candidates[i],
            ),
    ensures
        forall|i: int, j: int|
            0 <= i < j < run.len() ==> #[trigger] run[i].spec_generation()
                < #[trigger] run[j].spec_generation(),
    decreases candidates.len(),
{
    if candidates.len() > 0 {
        let n = candidates.len();
        let shorter = run.subrange(0, n as int);
        let fewer = candidates.subrange(0, n - 1);
        assert forall|i: int| 0 <= i < fewer.len() implies #[trigger] shorter[i].publishes_to(
            &shorter[i + 1],
            fewer[i],
        ) by {
            assert(run[i].publishes_to(&run[i + 1], candidates[i]));
        }
        lemma_generation_strictly_increasing(shorter, fewer);
        assert(run[n - 1].publishes_to(&run[n as int], candidates[n - 1]));
        assert forall|i: int, j: int| 0 <= i < j < run.len() implies #[trigger] run[i].spec_generation()
            < #[trigger] run[j].spec_generation() by {
            if j < n {
                assert(shorter[i].spec_generation() < shorter[j].spec_generation());
            } else if i < n - 1 {
                assert(shorter[i].spec_generation() < shorter[n - 1].spec_generation());
            }
        }
    }
}

/// Number of publications among steps `i .. j` of a run.
pub open spec fn publications_between(published: Seq<bool>, i: int, j: int) -> int
    decreases j - i,
{
    if j <= i {
        0
    } else {
        publications_between(published, i, j - 1) + if published[j - 1] {
            1int
        } else {
            0int
        }
    }
}

/// `run` interleaves publications and completions: where `published[k]`
/// holds, state `k + 1` is state `k` after publishing `candidates[k]`, else
/// it is what report `k` leads to.
pub open spec fn mixed_run(
    run: Seq<Coordinator>,
    published: Seq<bool>,
    candidates: Seq<CandidateData>,
    reports: Seq<AttemptReport>,
    nonces: Seq<Seq<u64>>,
    actions: Seq<CompletionAction>,
) -> bool {
    &&& run.len() == published.len() + 1
    &&& candidates.len() == published.len()
    &&& reports.len() == published.len()
    &&& nonces.len() == published.len()
    &&& actions.len() == published.len()
    &&& forall|k: int|
        0 <= k < published.len() ==> if #[trigger] published[k] {
            run[k].publishes_to(&run[k + 1], candidates[k])
        } else {
            run[k].completes_to(&run[k + 1], reports[k], nonces[k], actions[k])
        }
}

/// However publications and completions interleave, the generation goes up
/// by exactly the number of candidates published in between: it never goes
/// back, and every replacement makes it strictly larger.
pub proof fn lemma_generation_counts_publications(
    run: Seq<Coordinator>,
    published: Seq<bool>,
    candidates: Seq<CandidateData>,
    reports: Seq<AttemptReport>,
    nonces: Seq<Seq<u64>>,
    actions: Seq<CompletionAction>,
    i: int,
    j: int,
)
    requires
        mixed_run(run, published, candidates, reports, nonces, actions),
        0 <= i <= j < run.len(),
    ensures
        run[j].spec_generation() == run[i].spec_generation() + publications_between(
            published,
            i,
            j,
        ),
        publications_between(published, i, j) > 0 ==> run[i].spec_generation()
            < run[j].spec_generation(),
    decreases j - i,
{
    if j > i {
        lemma_generation_counts_publications(
            run,
            published,
            candidates,
            reports,
            nonces,
            actions,
            i,
            j - 1,
        );
        let k = j - 1;
        if published[k] {
            assert(run[k].publishes_to(&run[k + 1], candidates[k]));
        } else {
            assert(run[k].completes_to(&run[k + 1], reports[k], nonces[k], actions[k]));
        }
    }
}

/// No report that answers an attempt in flight carries a generation newer
/// than the one published when it arrives, and a relayed solution always
/// carries the published generation.
pub proof fn lemma_reports_never_ahead(
    c: Coordinator,
    next: Coordinator,
    report: AttemptReport,
    nonce: Seq<u64>,
    action: CompletionAction,
)
    requires
        c.wf(),
        c.completes_to(&next, report, nonce, action),
    ensures
        c.answers_in_flight(report) ==> report.generation_id <= c.spec_generation(),
        action.relay matches Some(sol) ==> sol.generation_id == c.spec_generation(),
{
    if c.answers_in_flight(report) {
        c.lemma_in_flight_bounded(report.worker_id as int);
    }
}

/// A result of a superseded generation is dropped: nothing is relayed, and
/// the worker's next attempt runs under the current generation.
pub proof fn lemma_stale_results_discarded(
    c: Coordinator,
    next: Coordinator,
    report: AttemptReport,
    nonce: Seq<u64>,
    action: CompletionAction,
)
    requires
        c.wf(),
        report.generation_id < c.spec_generation(),
        c.completes_to(&next, report, nonce, action),
    ensures
        action.relay is None,
        action.next matches Some(a) ==> a.generation_id == c.spec_generation(),
        next.spec_in_flight().len() == c.spec_in_flight().len(),
{
}

/// Number of actions in the run that relay a solution.
pub open spec fn relays_in(actions: Seq<CompletionAction>) -> nat
    decreases actions.len(),
{
    if actions.len() == 0 {
        0
    } else {
        relays_in(actions.drop_last()) + if actions.last().relay is Some {
            1nat
        } else {
            0nat
        }
    }
}

/// Number of reports in the run that bring a solution.
pub open spec fn solutions_in(reports: Seq<AttemptReport>) -> nat
    decreases reports.len(),
{
    if reports.len() == 0 {
        0
    } else {
        solutions_in(reports.drop_last()) + if reports.last().outcome is Solution {
            1nat
        } else {
            0nat
        }
    }
}

/// `run` is a run of completions: state `i + 1` is what report `i` leads
/// to from state `i`, with nonce `i` and action `i`.
pub open spec fn completion_run(
    run: Seq<Coordinator>,
    reports: Seq<AttemptReport>,
    nonces: Seq<Seq<u64>>,
    actions: Seq<CompletionAction>,
) -> bool {
    &&& run.len() == reports.len() + 1
    &&& nonces.len() == reports.len()
    &&& actions.len() == reports.len()
    &&& forall|i: int|
        0 <= i < reports.len() ==> #[trigger] run[i].completes_to(
            &run[i + 1],
            reports[i],
            nonces[i],
            actions[i],
        )
}

/// While all the workers of a published generation have their attempts in
/// flight under it, reports of that generation arriving in any order each
/// give their worker a new attempt of the same candidate and generation, so
/// every worker stays in flight; and exactly the reports that bring a
/// solution are relayed, each once.
pub proof fn lemma_current_reports_keep_workers(
    run: Seq<Coordinator>,
    reports: Seq<AttemptReport>,
    nonces: Seq<Seq<u64>>,
    actions: Seq<CompletionAction>,
)
    requires
        completion_run(run, reports, nonces, actions),
        run[0].spec_current() is Some,
        forall|w: int|
            0 <= w < run[0].spec_in_flight().len() ==> #[trigger] run[0].spec_in_flight()[w]
                == run[0].spec_generation(),
        forall|i: int|
            0 <= i < reports.len() ==> (#[trigger] reports[i]).worker_id < run[0].spec_in_flight().len()
                && reports[i].generation_id == run[0].spec_generation(),
    ensures
        forall|i: int|
            0 <= i < run.len() ==> (#[trigger] run[i]).spec_generation() == run[0].spec_generation()
                && run[i].spec_current() == run[0].spec_current() && run[i].spec_in_flight()
                == run[0].spec_in_flight(),
        forall|i: int|
            0 <= i < reports.len() ==> ((#[trigger] actions[i]).next matches Some(a) && a.worker_id
                == reports[i].worker_id && a.generation_id == run[0].spec_generation() && poke_for(
                a.poke,
                run[0].spec_current().unwrap(),
                nonces[i],
            )),
        forall|i: int|
            0 <= i < reports.len() ==> ((#[trigger] actions[i]).relay is Some <==> reports[i].outcome is Solution),
        relays_in(actions) == solutions_in(reports),
    decreases reports.len(),
{
    let n = reports.len();
    if n > 0 {
        let r0 = run.subrange(0, n as int);
        let rp = reports.drop_last();
        let nc = nonces.drop_last();
        let ac = actions.drop_last();
        assert forall|i: int| 0 <= i < rp.len() implies #[trigger] r0[i].completes_to(
            &r0[i + 1],
            rp[i],
            nc[i],
            ac[i],
        ) by {
            assert(run[i].completes_to(&run[i + 1], reports[i], nonces[i], actions[i]));
        }
        assert forall|i: int| 0 <= i < rp.len() implies (#[trigger] rp[i]).worker_id
            < r0[0].spec_in_flight().len() && rp[i].generation_id == r0[0].spec_generation() by {
            assert(reports[i].worker_id < run[0].spec_in_flight().len());
        }
        lemma_current_reports_keep_workers(r0, rp, nc, ac);
        let last = run[n - 1];
        assert(last == r0[n - 1]);
        assert(last.spec_in_flight() == run[0].spec_in_flight());
        let k = n - 1;
        assert(run[k].completes_to(&run[k + 1], reports[k], nonces[k], actions[k]));
        let rep = reports[n - 1];
        assert(reports[n - 1].worker_id < run[0].spec_in_flight().len());
        assert(last.answers_in_flight(rep));
        assert(run[n as int].spec_in_flight() =~= run[0].spec_in_flight());
        assert forall|i: int| 0 <= i < run.len() implies (#[trigger] run[i]).spec_generation()
            == run[0].spec_generation() && run[i].spec_current() == run[0].spec_current()
            && run[i].spec_in_flight() == run[0].spec_in_flight() by {
            if i < n {
                assert(r0[i] == run[i]);
            }
        }
        assert forall|i: int| 0 <= i < reports.len() implies ((#[trigger] actions[i]).next matches Some(a)
            && a.worker_id == reports[i].worker_id && a.generation_id == run[0].spec_generation()
            && poke_for(a.poke, run[0].spec_current().unwrap(), nonces[i])) by {
            if i < n - 1 {
                assert(ac[i] == actions[i]);
                assert(rp[i] == reports[i]);
                assert(nc[i] == nonces[i]);
            }
        }
        assert forall|i: int| 0 <= i < reports.len() implies ((#[trigger] actions[i]).relay is Some
            <==> reports[i].outcome is Solution) by {
            if i < n - 1 {
                assert(ac[i] == actions[i]);
                assert(rp[i] == reports[i]);
            }
        }
        assert(actions.last() == actions[n - 1]);
        assert(reports.last() == reports[n - 1]);
    }
}

/// Once a new generation is published, reports tagged with an older one,
/// arriving in any order, relay nothing, and every attempt they lead to is
/// built from the new candidate under the new generation.
pub proof fn lemma_superseded_reports_relay_nothing(
    run: Seq<Coordinator>,
    reports: Seq<AttemptReport>,
    nonces: Seq<Seq<u64>>,
    actions: Seq<CompletionAction>,
)
    requires
        completion_run(run, reports, nonces, actions),
        run[0].spec_current() is Some,
        forall|i: int|
            0 <= i < reports.len() ==> (#[trigger] reports[i]).generation_id
                < run[0].spec_generation(),
    ensures
        forall|i: int|
            0 <= i < run.len() ==> (#[trigger] run[i]).spec_generation() == run[0].spec_generation()
                && run[i].spec_current() == run[0].spec_current(),
        forall|i: int| 0 <= i < reports.len() ==> (#[trigger] actions[i]).relay is None,
        forall|i: int|
            0 <= i < reports.len() ==> ((#[trigger] actions[i]).next matches Some(a) ==> a.generation_id
                == run[0].spec_generation() && poke_for(
                a.poke,
                run[0].spec_current().unwrap(),
                nonces[i],
            )),
        relays_in(actions) == 0,
    decreases reports.len(),
{
    let n = reports.len();
    if n > 0 {
        let r0 = run.subrange(0, n as int);
        let rp = reports.drop_last();
        let nc = nonces.drop_last();
        let ac = actions.drop_last();
        assert forall|i: int| 0 <= i < rp.len() implies #[trigger] r0[i].completes_to(
            &r0[i + 1],
            rp[i],
            nc[i],
            ac[i],
        ) by {
            assert(run[i].completes_to(&run[i + 1], reports[i], nonces[i], actions[i]));
        }
        assert forall|i: int| 0 <= i < rp.len() implies (#[trigger] rp[i]).generation_id
            < r0[0].spec_generation() by {
            assert(reports[i].generation_id < run[0].spec_generation());
        }
        lemma_superseded_reports_relay_nothing(r0, rp, nc, ac);
        assert(run[n - 1] == r0[n - 1]);
        let k = n - 1;
        assert(run[k].completes_to(&run[k + 1], reports[k], nonces[k], actions[k]));
        assert(reports[n - 1].generation_id < run[0].spec_generation());
        assert forall|i: int| 0 <= i < run.len() implies (#[trigger] run[i]).spec_generation()
            == run[0].spec_generation() && run[i].spec_current() == run[0].spec_current() by {
            if i < n {
                assert(r0[i] == run[i]);
            }
        }
        assert forall|i: int| 0 <= i < reports.len() implies (#[trigger] actions[i]).relay is None by {
            if i < n - 1 {
                assert(ac[i] == actions[i]);
            }
        }
        assert forall|i: int| 0 <= i < reports.len() implies ((#[trigger] actions[i]).next matches Some(a)
            ==> a.generation_id == run[0].spec_generation() && poke_for(
            a.poke,
            run[0].spec_current().unwrap(),
            nonces[i],
        )) by {
            if i < n - 1 {
                assert(ac[i] == actions[i]);
                assert(nc[i] == nonces[i]);
            }
        }
        assert(actions.last() == actions[n - 1]);
    }
}

impl Coordinator {
    proof fn lemma_in_flight_bounded(&self, w: int)
        requires
            self.wf(),
            0 <= w < self.spec_in_flight().len(),
        ensures
            1 <= self.spec_in_flight()[w] <= self.spec_generation(),
    {
    }
}

} // verus!
