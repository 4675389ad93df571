use prover::attempt::AttemptOutcome;
use prover::attempt::AttemptRecord;
use prover::counter::CounterChange;
use prover::prover::Prover;
use prover::prover::DISPATCH_DELAY_MILLIS;
use prover::prover::SHARE_DIFFICULTY;
use prover::prover::STAGGER_DELAY_MILLIS;
use prover::work::Attempt;
use prover::work::LoopStep;
use prover::work::ProvingLoop;
use std::sync::Arc;

fn started(pools: u16, threads: u16) -> Arc<Prover> {
    match Prover::init(pools, threads) {
        Ok(prover) => prover,
        Err(error) => panic!("pool {} could not be built: {}", error.pool, error.cause),
    }
}

fn workers(prover: &Prover, difficulty: u64) -> Vec<ProvingLoop> {
    match prover.new_work(difficulty) {
        Ok(workers) => workers,
        Err(_) => panic!("the work context could not be built"),
    }
}

fn ignore(_attempt: Attempt) {}

fn failure() -> Result<u64, anyhow::Error> {
    Err(anyhow::Error::msg("the solver gave up"))
}

#[test]
fn prover_constants() {
    assert_eq!(SHARE_DIFFICULTY, 1024);
    assert_eq!(DISPATCH_DELAY_MILLIS, 50);
    assert_eq!(STAGGER_DELAY_MILLIS, 20);
}

#[test]
fn init_builds_the_pools_lowers_the_flag_and_zeroes_the_counter() {
    let prover = started(2, 4);
    assert_eq!(prover.pool_count(), 2);
    assert_eq!(prover.total_proofs(), 0);
    assert!(!prover.is_exiting());
}

#[test]
fn init_without_pools_succeeds() {
    let prover = started(0, 4);
    assert_eq!(prover.pool_count(), 0);
    assert_eq!(workers(&prover, SHARE_DIFFICULTY).len(), 0);
}

#[test]
fn exit_raises_the_flag_and_may_be_repeated() {
    let prover = started(1, 1);
    prover.exit();
    assert!(prover.is_exiting());
    prover.exit();
    prover.exit();
    assert!(prover.is_exiting());
    assert_eq!(prover.total_proofs(), 0);
}

#[test]
fn new_work_makes_one_loop_per_pool_in_index_order() {
    let prover = started(3, 2);
    let workers = workers(&prover, SHARE_DIFFICULTY);
    assert_eq!(workers.len(), 3);
    for (place, worker) in workers.iter().enumerate() {
        assert_eq!(worker.pool().index() as usize, place);
        assert_eq!(worker.pool().threads(), 2);
        assert_eq!(worker.difficulty(), 1024);
    }
}

#[test]
fn settle_counts_every_kind_of_attempt_once() {
    let prover = started(1, 1);
    let worker = workers(&prover, 1024).remove(0);
    let found = worker.settle(11, Ok(2048));
    assert_eq!(
        found.record,
        AttemptRecord {
            pool: 0,
            nonce: 11,
            achieved: Some(2048),
            outcome: AttemptOutcome::Found,
            change: CounterChange { before: 0, after: 1 },
        }
    );
    assert!(found.failure.is_none());
    let below = worker.settle(12, Ok(1023)).record;
    assert_eq!(below.achieved, Some(1023));
    assert_eq!(below.outcome, AttemptOutcome::BelowTarget);
    assert_eq!(below.change, CounterChange { before: 1, after: 2 });
    let failed = worker.settle(13, failure());
    assert_eq!(failed.record.nonce, 13);
    assert_eq!(failed.record.achieved, None);
    assert_eq!(failed.record.outcome, AttemptOutcome::Failed);
    assert_eq!(failed.record.change, CounterChange { before: 2, after: 3 });
    assert_eq!(failed.failure.map(|cause| cause.to_string()), Some("the solver gave up".to_string()));
    let met = worker.settle(14, Ok(1024)).record;
    assert_eq!(met.outcome, AttemptOutcome::Found);
    assert_eq!(prover.total_proofs(), 4);
}

#[test]
fn solver_failure_in_one_pool_leaves_the_other_pools_alone() {
    let prover = started(2, 1);
    let workers = workers(&prover, 1024);
    for _ in 0..10 {
        assert_eq!(workers[0].settle(1, failure()).record.outcome, AttemptOutcome::Failed);
    }
    assert!(!prover.is_exiting());
    assert_eq!(prover.total_proofs(), 10);
    // The other pool's loop goes on, and each of its attempts counts one.
    let record = workers[1].settle(2, Ok(4096)).record;
    assert_eq!(record.pool, 1);
    assert_eq!(record.outcome, AttemptOutcome::Found);
    assert_eq!(record.change, CounterChange { before: 10, after: 11 });
    match workers[1].proceed(prover.is_exiting()) {
        LoopStep::Halted => panic!("a failure elsewhere must not stop this loop"),
        LoopStep::Attempted(attempt) => {
            assert_eq!(attempt.record.pool, 1);
            assert_eq!(attempt.record.change, CounterChange { before: 11, after: 12 });
        }
    }
    assert_eq!(prover.total_proofs(), 12);
}

#[test]
fn loop_halts_once_the_flag_reads_raised() {
    let prover = started(2, 1);
    let workers = workers(&prover, 1024);
    assert!(matches!(workers[0].proceed(true), LoopStep::Halted));
    prover.exit();
    for worker in &workers {
        assert!(matches!(worker.step(), LoopStep::Halted));
        let report = worker.run(1000, &ignore);
        assert!(report.halted);
        assert_eq!(report.attempts(), 0);
        let report = worker.run_in_pool(1000, &ignore);
        assert!(report.halted);
        assert_eq!(report.attempts(), 0);
    }
    assert_eq!(prover.total_proofs(), 0);
}

#[test]
fn attempt_with_an_unreachable_difficulty_fails_and_is_counted() {
    let prover = started(1, 1);
    let worker = workers(&prover, u64::MAX).remove(0);
    let attempt = worker.attempt();
    let record = attempt.record;
    assert_eq!(record.pool, 0);
    assert_eq!(record.achieved, None);
    assert_eq!(record.outcome, AttemptOutcome::Failed);
    assert_eq!(record.change, CounterChange { before: 0, after: 1 });
    // The solver's own words come with the attempt.
    let words = attempt.failure.map(|cause| cause.to_string()).unwrap_or_default();
    assert!(words.contains("below the minimum proof target"), "{}", words);
    assert_eq!(prover.total_proofs(), 1);
}

#[test]
fn attempt_with_the_lowest_difficulty_finds_a_solution() {
    let prover = started(1, 1);
    let worker = workers(&prover, 0).remove(0);
    let attempt = worker.attempt();
    assert_eq!(attempt.record.outcome, AttemptOutcome::Found);
    assert!(attempt.record.achieved.is_some());
    assert!(attempt.failure.is_none());
    assert_eq!(prover.total_proofs(), 1);
}

#[test]
fn solution_that_comes_back_has_reached_the_difficulty() {
    let prover = started(1, 1);
    let worker = workers(&prover, 4).remove(0);
    for _ in 0..4 {
        let record = worker.attempt().record;
        match record.achieved {
            Some(target) => {
                assert!(target >= 4);
                assert_eq!(record.outcome, AttemptOutcome::Found);
            }
            None => assert_eq!(record.outcome, AttemptOutcome::Failed),
        }
    }
    assert_eq!(prover.total_proofs(), 4);
}

#[test]
fn run_spends_its_budget_while_the_flag_is_lowered() {
    let prover = started(1, 1);
    let worker = workers(&prover, 1024).remove(0);
    let report = worker.run(3, &ignore);
    assert!(!report.halted);
    assert_eq!(report.attempts(), 3);
    assert_eq!(report.below_target, 0);
    assert_eq!(prover.total_proofs(), 3);
    let report = worker.run(0, &ignore);
    assert!(!report.halted);
    assert_eq!(report.attempts(), 0);
}

#[test]
fn run_shows_every_attempt_to_the_observer() {
    let prover = started(1, 1);
    let worker = workers(&prover, 1024).remove(0);
    let seen = std::sync::Mutex::new(Vec::new());
    let report = worker.run_in_pool(3, &|attempt: Attempt| seen.lock().unwrap().push(attempt.record));
    let seen = seen.into_inner().unwrap();
    assert_eq!(report.attempts(), 3);
    assert_eq!(seen.len(), 3);
    for (place, record) in seen.iter().enumerate() {
        assert_eq!(record.pool, 0);
        assert_eq!(record.change.before as usize, place);
        assert_eq!(record.change.after as usize, place + 1);
    }
    let found = seen.iter().filter(|r| r.outcome == AttemptOutcome::Found).count() as u64;
    let failed = seen.iter().filter(|r| r.outcome == AttemptOutcome::Failed).count() as u64;
    assert_eq!((report.found, report.failed), (found, failed));
}

#[test]
fn run_in_pool_proves_on_a_thread_of_the_pool() {
    let prover = started(2, 1);
    let workers = workers(&prover, 1024);
    let worker = &workers[1];
    assert_eq!(worker.pool().executor().current_thread_index(), None);
    let places = std::sync::Mutex::new(Vec::new());
    worker.run_in_pool(1, &|_attempt: Attempt| {
        places.lock().unwrap().push(worker.pool().executor().current_thread_index())
    });
    assert_eq!(places.into_inner().unwrap(), vec![Some(0)]);
    let places = std::sync::Mutex::new(Vec::new());
    worker.run(1, &|_attempt: Attempt| {
        places.lock().unwrap().push(worker.pool().executor().current_thread_index())
    });
    assert_eq!(places.into_inner().unwrap(), vec![None]);
}

#[test]
fn counter_at_shutdown_is_the_sum_of_the_attempts_of_both_pools() {
    let prover = started(2, 4);
    let workers = workers(&prover, SHARE_DIFFICULTY);
    let drivers = rayon::ThreadPoolBuilder::new().num_threads(3).build().unwrap();
    let reports = std::sync::Mutex::new(Vec::new());
    drivers.scope(|scope| {
        for worker in &workers {
            let reports = &reports;
            scope.spawn(move |_| {
                let report = worker.run_in_pool(u64::MAX, &ignore);
                reports.lock().unwrap().push(report);
            });
        }
        while prover.total_proofs() < 6 {
            std::hint::spin_loop();
        }
        prover.exit();
    });
    let reports = reports.into_inner().unwrap();
    assert_eq!(reports.len(), 2);
    let mut sum = 0;
    for report in &reports {
        assert!(report.halted);
        sum += report.attempts();
    }
    assert!(sum >= 6);
    assert_eq!(prover.total_proofs() as u64, sum);
}

#[test]
fn report_tallies_each_step_by_its_outcome() {
    let prover = started(1, 1);
    let worker = workers(&prover, 1024).remove(0);
    let mut report = prover::work::LoopReport::new();
    assert_eq!(
        report,
        prover::work::LoopReport { found: 0, below_target: 0, failed: 0, halted: false }
    );
    report.absorb(&LoopStep::Attempted(worker.settle(1, Ok(5000))));
    report.absorb(&LoopStep::Attempted(worker.settle(2, Ok(5))));
    report.absorb(&LoopStep::Attempted(worker.settle(13, failure())));
    report.absorb(&LoopStep::Attempted(worker.settle(13, failure())));
    assert_eq!(
        report,
        prover::work::LoopReport { found: 1, below_target: 1, failed: 2, halted: false }
    );
    assert_eq!(report.attempts(), 4);
    report.absorb(&LoopStep::Halted);
    assert_eq!(
        report,
        prover::work::LoopReport { found: 1, below_target: 1, failed: 2, halted: true }
    );
}

#[test]
fn every_loop_proves_with_the_one_context() {
    let prover = started(3, 1);
    let workers = workers(&prover, 8);
    // The same nonce gives the same answer in every loop only if all of
    // them prove for one epoch, in one name and against one difficulty.
    for nonce in 0..3u64 {
        let answers: Vec<Option<u64>> =
            workers.iter().map(|worker| worker.work_context().prove(nonce).ok()).collect();
        assert_eq!(answers[1], answers[0]);
        assert_eq!(answers[2], answers[0]);
    }
    for worker in &workers {
        assert_eq!(worker.difficulty(), 8);
    }
}

#[test]
fn pools_of_a_prover_are_built_as_asked() {
    let prover = started(2, 3);
    let workers = workers(&prover, SHARE_DIFFICULTY);
    for (place, worker) in workers.iter().enumerate() {
        assert_eq!(worker.pool().index() as usize, place);
        assert_eq!(worker.pool().threads(), 3);
        assert_eq!(worker.pool().stack_bytes(), 8 * 1024 * 1024);
        assert_eq!(worker.pool().executor().current_num_threads(), 3);
    }
}

#[test]
fn attempt_achieves_what_the_puzzle_answers_to_its_nonce() {
    let prover = started(1, 1);
    let worker = workers(&prover, 2).remove(0);
    for _ in 0..3 {
        let record = worker.attempt().record;
        assert_eq!(record.achieved, worker.work_context().prove(record.nonce).ok());
    }
}

#[test]
fn attempts_draw_fresh_nonces() {
    let prover = started(1, 1);
    let worker = workers(&prover, u64::MAX).remove(0);
    let first = worker.attempt().record.nonce;
    let second = worker.attempt().record.nonce;
    let third = worker.attempt().record.nonce;
    assert!(first != second || second != third);
}

#[test]
fn loop_holds_the_pool_of_its_place() {
    let prover = started(3, 2);
    let workers = workers(&prover, SHARE_DIFFICULTY);
    for (place, worker) in workers.iter().enumerate() {
        assert_eq!(worker.pool().index() as usize, place);
    }
    // Each loop runs in an executor of its own: inside the executor of one
    // loop, the threads of the others are not at home.
    for (place, worker) in workers.iter().enumerate() {
        let at_home: Vec<bool> = worker.pool().executor().install(|| {
            workers.iter().map(|other| other.pool().executor().current_thread_index().is_some()).collect()
        });
        for (other, inside) in at_home.iter().enumerate() {
            assert_eq!(*inside, other == place);
        }
    }
}
