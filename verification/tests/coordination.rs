use batch_ingest::backoff::RetryBudget;
use batch_ingest::coordinator::batch_insert;
use batch_ingest::coordinator::ingest;
use batch_ingest::coordinator::par_batch_insert;
use batch_ingest::coordinator::IngestMode;
use batch_ingest::coordinator::STORE_BATCH_CAP;
use batch_ingest::ingestor::ChunkRun;
use batch_ingest::ingestor::IngestionOutcome;
use batch_ingest::ingestor::StoreErrorKind;
use batch_ingest::ingestor::StoreResponse;
use batch_ingest::ingestor::WriteRequest;

fn requests(n: u64) -> Vec<WriteRequest> {
    (0..n).map(|id| WriteRequest { id }).collect()
}

#[test]
fn sixty_items_against_a_willing_store_complete_in_three_chunks() {
    // 60 items, cap 25, store always succeeds: 3 chunks (25, 25, 10), all
    // completed, zero retries.
    assert_eq!(STORE_BATCH_CAP, 25);
    let items = requests(60);
    let scripts = vec![
        vec![StoreResponse::Accepted],
        vec![StoreResponse::Accepted],
        vec![StoreResponse::Accepted],
    ];
    let budget = RetryBudget::standard(Some(10));
    let runs = batch_insert(&items, &budget, &scripts);
    assert_eq!(runs.len(), 3);
    for run in &runs {
        assert_eq!(
            *run,
            ChunkRun::Finished { outcome: IngestionOutcome::Completed, delays: Vec::new() }
        );
    }
}

#[test]
fn sequential_and_parallel_modes_agree() {
    let items = requests(60);
    let scripts = vec![
        vec![StoreResponse::Accepted],
        vec![StoreResponse::Accepted],
        vec![StoreResponse::Accepted],
    ];
    let budget = RetryBudget::standard(Some(10));
    let sequential = batch_insert(&items, &budget, &scripts);
    let parallel = par_batch_insert(&items, &budget, &scripts);
    assert_eq!(sequential, parallel);
    assert_eq!(ingest(&items, IngestMode::Sequential, &budget, &scripts), sequential);
    assert_eq!(ingest(&items, IngestMode::Parallel, &budget, &scripts), parallel);
}

#[test]
fn modes_agree_on_mixed_outcomes_too() {
    let items = requests(30);
    let scripts = vec![
        vec![StoreResponse::Accepted],
        vec![
            StoreResponse::Failed(StoreErrorKind::Timeout),
            StoreResponse::Failed(StoreErrorKind::Timeout),
            StoreResponse::Failed(StoreErrorKind::Timeout),
        ],
    ];
    let budget = RetryBudget::standard(Some(2));
    let sequential = ingest(&items, IngestMode::Sequential, &budget, &scripts);
    let parallel = ingest(&items, IngestMode::Parallel, &budget, &scripts);
    assert_eq!(sequential, parallel);
    assert_eq!(sequential.len(), 2);
    assert_eq!(
        sequential[0],
        ChunkRun::Finished { outcome: IngestionOutcome::Completed, delays: Vec::new() }
    );
    // The second chunk holds the items 25..30 and never gets through.
    let second_chunk: Vec<WriteRequest> = (25..30).map(|id| WriteRequest { id }).collect();
    assert_eq!(
        sequential[1],
        ChunkRun::Finished {
            outcome: IngestionOutcome::Abandoned { remaining: second_chunk, attempts_made: 3 },
            delays: vec![2, 4],
        }
    );
}

#[test]
fn one_struggling_chunk_does_not_starve_its_siblings() {
    // Attempt counting is per chunk: the first chunk burning retries leaves
    // the second chunk's budget untouched.
    let items = requests(28);
    let scripts = vec![
        vec![
            StoreResponse::Failed(StoreErrorKind::Service),
            StoreResponse::Failed(StoreErrorKind::Service),
            StoreResponse::Accepted,
        ],
        vec![StoreResponse::Accepted],
    ];
    let budget = RetryBudget::standard(Some(2));
    let runs = ingest(&items, IngestMode::Parallel, &budget, &scripts);
    assert_eq!(runs.len(), 2);
    assert_eq!(
        runs[0],
        ChunkRun::Finished { outcome: IngestionOutcome::Completed, delays: vec![2, 4] }
    );
    assert_eq!(
        runs[1],
        ChunkRun::Finished { outcome: IngestionOutcome::Completed, delays: Vec::new() }
    );
}

#[test]
fn accepted_items_and_abandoned_backlog_cover_the_chunk() {
    // No loss on a partial-success path: the store accepts three of five
    // items, then fails until the budget is gone; what the store took and
    // what the outcome still carries are together exactly the chunk.
    let items = requests(5);
    let unprocessed = vec![WriteRequest { id: 3 }, WriteRequest { id: 4 }];
    let scripts = vec![vec![
        StoreResponse::Partial(unprocessed.clone()),
        StoreResponse::Failed(StoreErrorKind::Timeout),
        StoreResponse::Failed(StoreErrorKind::Timeout),
    ]];
    let budget = RetryBudget::standard(Some(2));
    let runs = ingest(&items, IngestMode::Sequential, &budget, &scripts);
    assert_eq!(runs.len(), 1);
    assert_eq!(
        runs[0],
        ChunkRun::Finished {
            outcome: IngestionOutcome::Abandoned { remaining: unprocessed, attempts_made: 3 },
            delays: vec![2, 4],
        }
    );
}

#[test]
fn empty_input_yields_no_outcomes() {
    let items = requests(0);
    let scripts: Vec<Vec<StoreResponse>> = Vec::new();
    let budget = RetryBudget::standard(None);
    let runs = ingest(&items, IngestMode::Sequential, &budget, &scripts);
    assert!(runs.is_empty());
}
