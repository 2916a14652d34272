use batch_ingest::backoff::RetryBudget;
use batch_ingest::ingestor::ingest_batch_chunk;
use batch_ingest::ingestor::step;
use batch_ingest::ingestor::ChunkRun;
use batch_ingest::ingestor::IngestionOutcome;
use batch_ingest::ingestor::RetryState;
use batch_ingest::ingestor::StepResult;
use batch_ingest::ingestor::StoreErrorKind;
use batch_ingest::ingestor::StoreResponse;
use batch_ingest::ingestor::WriteRequest;

fn requests(n: u64) -> Vec<WriteRequest> {
    (0..n).map(|id| WriteRequest { id }).collect()
}

#[test]
fn accepted_response_completes_the_chunk() {
    let state = RetryState { attempts: 0, backlog: requests(5) };
    let budget = RetryBudget::standard(Some(2));
    let r = step(state, &budget, &StoreResponse::Accepted);
    assert_eq!(r, StepResult::Done(IngestionOutcome::Completed));
}

#[test]
fn empty_unprocessed_set_completes_the_chunk() {
    let state = RetryState { attempts: 0, backlog: requests(5) };
    let budget = RetryBudget::standard(Some(2));
    let r = step(state, &budget, &StoreResponse::Partial(Vec::new()));
    assert_eq!(r, StepResult::Done(IngestionOutcome::Completed));
}

#[test]
fn partial_response_narrows_the_backlog_and_backs_off() {
    let state = RetryState { attempts: 0, backlog: requests(5) };
    let budget = RetryBudget::standard(Some(2));
    let unprocessed = vec![WriteRequest { id: 1 }, WriteRequest { id: 3 }];
    let r = step(state, &budget, &StoreResponse::Partial(unprocessed.clone()));
    // First backoff cycle: delay = min(1 * 2^1, 300) = 2 seconds.
    assert_eq!(
        r,
        StepResult::Retry {
            state: RetryState { attempts: 1, backlog: unprocessed },
            delay_secs: 2,
        }
    );
}

#[test]
fn failed_call_keeps_the_whole_backlog() {
    let backlog = requests(5);
    let state = RetryState { attempts: 1, backlog: backlog.clone() };
    let budget = RetryBudget::standard(Some(5));
    let r = step(state, &budget, &StoreResponse::Failed(StoreErrorKind::Dispatch));
    // Second backoff cycle: delay = min(1 * 2^2, 300) = 4 seconds.
    assert_eq!(
        r,
        StepResult::Retry { state: RetryState { attempts: 2, backlog }, delay_secs: 4 }
    );
}

#[test]
fn exceeding_the_budget_abandons_the_backlog() {
    let backlog = requests(5);
    let state = RetryState { attempts: 2, backlog: backlog.clone() };
    let budget = RetryBudget::standard(Some(2));
    let r = step(state, &budget, &StoreResponse::Failed(StoreErrorKind::Timeout));
    assert_eq!(
        r,
        StepResult::Done(IngestionOutcome::Abandoned { remaining: backlog, attempts_made: 3 })
    );
}

#[test]
fn unbounded_budget_never_abandons() {
    let backlog = requests(5);
    let state = RetryState { attempts: 1000, backlog: backlog.clone() };
    let budget = RetryBudget::standard(None);
    let r = step(state, &budget, &StoreResponse::Failed(StoreErrorKind::Service));
    assert_eq!(
        r,
        StepResult::Retry {
            state: RetryState { attempts: 1001, backlog },
            delay_secs: 300,
        }
    );
}

#[test]
fn one_partial_then_accepted_completes_after_one_retry() {
    // 10 items, cap 25: one chunk; the store returns 3 unprocessed items on
    // the first call and accepts everything on the second.
    let chunk = requests(10);
    let budget = RetryBudget::standard(Some(10));
    let unprocessed = vec![WriteRequest { id: 2 }, WriteRequest { id: 5 }, WriteRequest { id: 7 }];
    let script = vec![StoreResponse::Partial(unprocessed), StoreResponse::Accepted];
    let run = ingest_batch_chunk(&chunk, &budget, &script);
    assert_eq!(
        run,
        ChunkRun::Finished { outcome: IngestionOutcome::Completed, delays: vec![2] }
    );
}

#[test]
fn always_timing_out_store_abandons_after_the_budget() {
    // 5 items, store always errors with a timeout, two attempts allowed:
    // abandoned with all 5 items still in the backlog after exactly 2
    // backoff cycles.
    let chunk = requests(5);
    let budget = RetryBudget::standard(Some(2));
    let script = vec![
        StoreResponse::Failed(StoreErrorKind::Timeout),
        StoreResponse::Failed(StoreErrorKind::Timeout),
        StoreResponse::Failed(StoreErrorKind::Timeout),
    ];
    let run = ingest_batch_chunk(&chunk, &budget, &script);
    assert_eq!(
        run,
        ChunkRun::Finished {
            outcome: IngestionOutcome::Abandoned { remaining: chunk, attempts_made: 3 },
            delays: vec![2, 4],
        }
    );
}

#[test]
fn empty_chunk_completes_without_store_calls() {
    let chunk = requests(0);
    let budget = RetryBudget::standard(Some(2));
    let script = vec![StoreResponse::Failed(StoreErrorKind::Timeout)];
    let run = ingest_batch_chunk(&chunk, &budget, &script);
    assert_eq!(
        run,
        ChunkRun::Finished { outcome: IngestionOutcome::Completed, delays: Vec::new() }
    );
}

#[test]
fn script_running_out_reports_the_standing_state() {
    let chunk = requests(4);
    let budget = RetryBudget::standard(Some(10));
    let script = vec![StoreResponse::Failed(StoreErrorKind::Response)];
    let run = ingest_batch_chunk(&chunk, &budget, &script);
    assert_eq!(
        run,
        ChunkRun::Exhausted {
            state: RetryState { attempts: 1, backlog: chunk },
            delays: vec![2],
        }
    );
}

#[test]
fn error_categories_have_their_log_labels() {
    assert_eq!(StoreErrorKind::Construction.label(), "Construction failure");
    assert_eq!(StoreErrorKind::Timeout.label(), "Timeout error");
    assert_eq!(StoreErrorKind::Dispatch.label(), "Dispatch failure");
    assert_eq!(StoreErrorKind::Response.label(), "Response error");
    assert_eq!(StoreErrorKind::Service.label(), "Service error");
}
