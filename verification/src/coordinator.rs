//! The batch coordinator: splits the full list of write requests into
//! store-sized chunks and dispatches each chunk to the ingestor, either
//! sequentially (one chunk after another, in order) or in parallel (one
//! task per chunk, joined in chunk order).  Both modes return the same
//! outcome shape, chunk by chunk; the coordinator never retries at its
//! own level — all retry logic lives in the chunk ingestor.
//!
//! The store calls are I/O and live with the caller; here each chunk runs
//! against its script of store responses, so every decision of the
//! coordinator is checked for any behaviour of the store.

use crate::backoff::RetryBudget;
use crate::chunker::chunk;
use crate::chunker::chunk_at;
use crate::chunker::chunk_count;
use crate::chunker::lemma_chunks_concat;
use crate::ingestor::ingest_batch_chunk;
use crate::ingestor::lemma_no_loss;
use crate::ingestor::outstanding;
use crate::ingestor::script_ok;
use crate::ingestor::run_delays;
use crate::ingestor::run_model;
use crate::ingestor::run_outcome;
use crate::ingestor::ChunkRun;
use crate::ingestor::RunModel;
use crate::ingestor::StoreResponse;
use crate::ingestor::WriteRequest;
use vstd::multiset::Multiset;
use vstd::prelude::*;

verus! {

/// Hard per-call limit of the store's batch-write API: the chunk size.
pub const STORE_BATCH_CAP: usize = 25;

/// How the coordinator dispatches its chunks.
#[derive(Clone, Copy, PartialEq, Eq, Structural, Debug)]
pub enum IngestMode {
    /// Chunks are ingested one at a time, in order: bounded concurrency
    /// and minimal load on the store.
    Sequential,
    /// One concurrent task per chunk; the coordinator waits for all of
    /// them, and one chunk's fate never cancels a sibling's.
    Parallel,
}

/// The chunks of a request list, as mathematical values.
pub open spec fn chunks_view(items: Seq<WriteRequest>) -> Seq<Seq<WriteRequest>> {
    Seq::new(
        chunk_count(items.len(), STORE_BATCH_CAP as nat),
        |i: int| chunk_at(items, STORE_BATCH_CAP as nat, i),
    )
}

/// The response scripts, one per chunk, as mathematical values.
pub open spec fn scripts_view(scripts: Seq<Vec<StoreResponse>>) -> Seq<Seq<StoreResponse>> {
    Seq::new(scripts.len() as nat, |i: int| scripts[i]@)
}

/// Outcomes of sequential dispatch: a fold over the chunks in order.
pub open spec fn seq_ingest_model(
    chunks: Seq<Seq<WriteRequest>>,
    budget: RetryBudget,
    scripts: Seq<Seq<StoreResponse>>,
) -> Seq<RunModel>
    decreases chunks.len(),
{
    if chunks.len() == 0 {
        Seq::empty()
    } else {
        seq![run_model(chunks[0], 0, budget, scripts[0])] + seq_ingest_model(
            chunks.drop_first(),
            budget,
            scripts.drop_first(),
        )
    }
}

/// Outcomes of parallel dispatch: each chunk's run is independent of its
/// siblings', and the join point collects them in chunk order.
pub open spec fn par_ingest_model(
    chunks: Seq<Seq<WriteRequest>>,
    budget: RetryBudget,
    scripts: Seq<Seq<StoreResponse>>,
) -> Seq<RunModel> {
    Seq::new(chunks.len(), |i: int| run_model(chunks[i], 0, budget, scripts[i]))
}

/// Mode equivalence: for the same items, budget and store behaviour,
/// sequential and parallel dispatch produce exactly the same outcomes,
/// chunk for chunk — in particular, against a store that always succeeds
/// on the first attempt, the same outcomes in the same order, so the same
/// multiset of completed chunks; the modes differ only in timing.
pub proof fn lemma_mode_equivalence(
    chunks: Seq<Seq<WriteRequest>>,
    budget: RetryBudget,
    scripts: Seq<Seq<StoreResponse>>,
)
    requires
        chunks.len() == scripts.len(),
    ensures
        seq_ingest_model(chunks, budget, scripts) =~= par_ingest_model(chunks, budget, scripts),
    decreases chunks.len(),
{
    if chunks.len() == 0 {
    } else {
        lemma_mode_equivalence(chunks.drop_first(), budget, scripts.drop_first());
        let s = seq_ingest_model(chunks, budget, scripts);
        let p = par_ingest_model(chunks, budget, scripts);
        assert forall|i: int| 0 <= i < s.len() implies s[i] == p[i] by {
            if i > 0 {
                assert(s[i] == seq_ingest_model(chunks.drop_first(), budget, scripts.drop_first())[
                    i - 1]);
                assert(par_ingest_model(chunks.drop_first(), budget, scripts.drop_first())[i - 1]
                    == run_model(chunks[i], 0, budget, scripts[i]));
            }
        }
    }
}

/// What a batch of chunk runs accounts for: across all chunks, the items
/// the store accepted together with every outcome's outstanding backlog.
pub open spec fn accounted(runs: Seq<RunModel>) -> Multiset<WriteRequest>
    decreases runs.len(),
{
    if runs.len() == 0 {
        Multiset::empty()
    } else {
        runs[0].accepted.add(outstanding(runs[0].outcome)).add(accounted(runs.drop_first()))
    }
}

/// Helper for [`lemma_batch_no_loss`]: over any chunk family, what the
/// runs account for is the multiset of all the chunks' items.
proof fn lemma_accounted_covers_chunks(
    chunks: Seq<Seq<WriteRequest>>,
    budget: RetryBudget,
    scripts: Seq<Seq<StoreResponse>>,
)
    requires
        chunks.len() == scripts.len(),
        forall|i: int|
            0 <= i < chunks.len() ==> script_ok(#[trigger] chunks[i], 0, budget, scripts[i]),
    ensures
        accounted(par_ingest_model(chunks, budget, scripts)) =~= chunks.flatten().to_multiset(),
    decreases chunks.len(),
{
    broadcast use vstd::multiset::group_multiset_axioms;

    let runs = par_ingest_model(chunks, budget, scripts);
    if chunks.len() == 0 {
        assert(chunks.flatten() =~= Seq::<WriteRequest>::empty());
        chunks.flatten().to_multiset_ensures();
        vstd::multiset::lemma_multiset_empty_len(chunks.flatten().to_multiset());
    } else {
        lemma_no_loss(chunks[0], 0, budget, scripts[0]);
        assert(runs.drop_first() =~= par_ingest_model(
            chunks.drop_first(),
            budget,
            scripts.drop_first(),
        ));
        lemma_accounted_covers_chunks(chunks.drop_first(), budget, scripts.drop_first());
        vstd::seq_lib::lemma_multiset_commutative(chunks[0], chunks.drop_first().flatten());
        assert(chunks.flatten() == chunks[0] + chunks.drop_first().flatten());
    }
}

/// Batch-level no-loss: split any list of items into chunks and run every
/// chunk against a well-formed script of store responses; then the items
/// of the completed chunks, the items the store accepted from the other
/// chunks, and the remaining backlogs their outcomes report are together
/// exactly the original list — no item is ever silently lost or
/// duplicated, in either dispatch mode.
pub proof fn lemma_batch_no_loss(
    items: Seq<WriteRequest>,
    budget: RetryBudget,
    scripts: Seq<Seq<StoreResponse>>,
)
    requires
        scripts.len() == chunk_count(items.len(), STORE_BATCH_CAP as nat),
        forall|i: int|
            0 <= i < scripts.len() ==> script_ok(
                #[trigger] chunk_at(items, STORE_BATCH_CAP as nat, i),
                0,
                budget,
                scripts[i],
            ),
    ensures
        accounted(par_ingest_model(chunks_view(items), budget, scripts)) =~= items.to_multiset(),
{
    let chunks = chunks_view(items);
    lemma_accounted_covers_chunks(chunks, budget, scripts);
    lemma_chunks_concat(items, STORE_BATCH_CAP as nat, chunks);
}

/// How a list of executable chunk runs corresponds to its model: the same
/// outcome and the same delays for every chunk.
pub open spec fn runs_match(r: Seq<ChunkRun>, m: Seq<RunModel>) -> bool {
    r.len() == m.len() && forall|i: int|
        0 <= i < r.len() ==> #[trigger] run_outcome(r[i]) == m[i].outcome && run_delays(r[i])
            == m[i].delays
}

/// Sequential dispatch: splits the requests into chunks of at most
/// [`STORE_BATCH_CAP`] items and drives them one after another, in order,
/// each against its own script of store responses.
pub fn batch_insert(
    write_requests: &Vec<WriteRequest>,
    budget: &RetryBudget,
    scripts: &Vec<Vec<StoreResponse>>,
) -> (r: Vec<ChunkRun>)
    requires
        scripts@.len() == chunk_count(write_requests@.len(), STORE_BATCH_CAP as nat),
        forall|i: int| 0 <= i < scripts@.len() ==> #[trigger] scripts@[i]@.len() < u32::MAX,
    ensures
        runs_match(
            r@,
            seq_ingest_model(chunks_view(write_requests@), *budget, scripts_view(scripts@)),
        ),
{
    proof {
        lemma_mode_equivalence(chunks_view(write_requests@), *budget, scripts_view(scripts@));
    }
    let chunks = chunk(write_requests, STORE_BATCH_CAP);
    let mut r: Vec<ChunkRun> = Vec::new();
    let mut i: usize = 0;
    while i < chunks.len()
        invariant
            chunks@.len() == scripts@.len(),
            scripts@.len() == chunk_count(write_requests@.len(), STORE_BATCH_CAP as nat),
            forall|j: int| 0 <= j < scripts@.len() ==> #[trigger] scripts@[j]@.len() < u32::MAX,
            forall|j: int|
                0 <= j < chunks@.len() ==> #[trigger] chunks@[j]@ == chunk_at(
                    write_requests@,
                    STORE_BATCH_CAP as nat,
                    j,
                ),
            i <= chunks@.len(),
            r@.len() == i,
            forall|j: int|
                0 <= j < i ==> #[trigger] run_outcome(r@[j]) == par_ingest_model(
                    chunks_view(write_requests@),
                    *budget,
                    scripts_view(scripts@),
                )[j].outcome && run_delays(r@[j]) == par_ingest_model(
                    chunks_view(write_requests@),
                    *budget,
                    scripts_view(scripts@),
                )[j].delays,
        decreases chunks@.len() - i,
    {
        let run = ingest_batch_chunk(&chunks[i], budget, &scripts[i]);
        r.push(run);
        i += 1;
    }
    proof {
        lemma_mode_equivalence(chunks_view(write_requests@), *budget, scripts_view(scripts@));
    }
    r
}

/// Parallel dispatch: one task per chunk, each owning its chunk's retry
/// state exclusively, joined in chunk order.  A chunk's outcome is
/// independent of its siblings', so the collected outcomes equal the
/// sequential ones.
pub fn par_batch_insert(
    write_requests: &Vec<WriteRequest>,
    budget: &RetryBudget,
    scripts: &Vec<Vec<StoreResponse>>,
) -> (r: Vec<ChunkRun>)
    requires
        scripts@.len() == chunk_count(write_requests@.len(), STORE_BATCH_CAP as nat),
        forall|i: int| 0 <= i < scripts@.len() ==> #[trigger] scripts@[i]@.len() < u32::MAX,
    ensures
        runs_match(
            r@,
            par_ingest_model(chunks_view(write_requests@), *budget, scripts_view(scripts@)),
        ),
{
    let chunks = chunk(write_requests, STORE_BATCH_CAP);
    let mut tasks: Vec<ChunkRun> = Vec::new();
    let mut i: usize = 0;
    while i < chunks.len()
        invariant
            chunks@.len() == scripts@.len(),
            scripts@.len() == chunk_count(write_requests@.len(), STORE_BATCH_CAP as nat),
            forall|j: int| 0 <= j < scripts@.len() ==> #[trigger] scripts@[j]@.len() < u32::MAX,
            forall|j: int|
                0 <= j < chunks@.len() ==> #[trigger] chunks@[j]@ == chunk_at(
                    write_requests@,
                    STORE_BATCH_CAP as nat,
                    j,
                ),
            i <= chunks@.len(),
            tasks@.len() == i,
            forall|j: int|
                0 <= j < i ==> #[trigger] run_outcome(tasks@[j]) == par_ingest_model(
                    chunks_view(write_requests@),
                    *budget,
                    scripts_view(scripts@),
                )[j].outcome && run_delays(tasks@[j]) == par_ingest_model(
                    chunks_view(write_requests@),
                    *budget,
                    scripts_view(scripts@),
                )[j].delays,
        decreases chunks@.len() - i,
    {
        let run = ingest_batch_chunk(&chunks[i], budget, &scripts[i]);
        tasks.push(run);
        i += 1;
    }
    tasks
}

/// Ingests a full list of write requests: chunks it, drives every chunk
/// to a terminal state (or to the end of its response script) in the
/// requested mode, and returns the per-chunk outcomes in chunk order.
/// Both modes produce the same outcomes.
pub fn ingest(
    write_requests: &Vec<WriteRequest>,
    mode: IngestMode,
    budget: &RetryBudget,
    scripts: &Vec<Vec<StoreResponse>>,
) -> (r: Vec<ChunkRun>)
    requires
        scripts@.len() == chunk_count(write_requests@.len(), STORE_BATCH_CAP as nat),
        forall|i: int| 0 <= i < scripts@.len() ==> #[trigger] scripts@[i]@.len() < u32::MAX,
    ensures
        runs_match(
            r@,
            par_ingest_model(chunks_view(write_requests@), *budget, scripts_view(scripts@)),
        ),
{
    match mode {
        IngestMode::Sequential => {
            let r = batch_insert(write_requests, budget, scripts);
            proof {
                lemma_mode_equivalence(
                    chunks_view(write_requests@),
                    *budget,
                    scripts_view(scripts@),
                );
            }
            r
        },
        IngestMode::Parallel => par_batch_insert(write_requests, budget, scripts),
    }
}

} // verus!
