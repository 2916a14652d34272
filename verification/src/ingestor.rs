//! The chunk ingestor: drives exactly one chunk of write requests to
//! completion or exhaustion against the remote store.
//!
//! The state machine per chunk: *Sending* issues one batch-write call with
//! the current backlog; on success with unprocessed items the backlog
//! narrows to exactly those items, on a failed call the entire backlog
//! stays outstanding; either way the machine moves to *Backoff*, which
//! increments the attempt counter, abandons the chunk once a configured
//! attempt cap is exceeded, and otherwise sleeps
//! `min(initial_delay * 2^attempt, max_delay)` seconds before resending
//! the whole backlog.  Terminal states are *Completed* and *Abandoned*;
//! an abandoned chunk reports its remaining backlog, never dropping it.
//!
//! The store calls themselves are I/O and live with the caller: the
//! decisions stand here as the [`step`] transition function, and
//! [`ingest_batch_chunk`] runs a whole chunk against a script of store
//! responses, as the engine's tests and laws require.

use crate::backoff::backoff_delay;
use crate::backoff::backoff_delay_spec;
use crate::backoff::RetryBudget;
use vstd::multiset::Multiset;
use vstd::prelude::*;

verus! {

/// One item to be written to the store.
///
/// The store-specific payload (a mapping from attribute name to typed
/// value) stays with the caller; the engine never inspects it and tracks a
/// request only by count and identity, so inside the engine a request is
/// its identity.
#[derive(Clone, Copy, PartialEq, Eq, Structural, Debug, Hash)]
pub struct WriteRequest {
    pub id: u64,
}

/// The category of a failed store call, kept for structured logging.
///
/// Retry behaviour does not branch on the category: every failed call is
/// retried identically until the budget runs out.
#[derive(Clone, Copy, PartialEq, Eq, Structural, Debug)]
pub enum StoreErrorKind {
    /// The request failed during construction and was never dispatched.
    Construction,
    /// The request timed out; it may have been sent and received.
    Timeout,
    /// The request failed during dispatch; no response was received.
    Dispatch,
    /// A response was received but could not be parsed.
    Response,
    /// The store returned an error response.
    Service,
}

/// The label under which a failure of the given category is logged.
pub open spec fn label_of(kind: StoreErrorKind) -> Seq<char> {
    match kind {
        StoreErrorKind::Construction => "Construction failure"@,
        StoreErrorKind::Timeout => "Timeout error"@,
        StoreErrorKind::Dispatch => "Dispatch failure"@,
        StoreErrorKind::Response => "Response error"@,
        StoreErrorKind::Service => "Service error"@,
    }
}

impl StoreErrorKind {
    /// The label under which a failure of this category is logged:
    /// exactly [`label_of`].
    pub fn label(&self) -> (r: &'static str)
        ensures
            r@ == label_of(*self),
    {
        match self {
            StoreErrorKind::Construction => "Construction failure",
            StoreErrorKind::Timeout => "Timeout error",
            StoreErrorKind::Dispatch => "Dispatch failure",
            StoreErrorKind::Response => "Response error",
            StoreErrorKind::Service => "Service error",
        }
    }
}

/// What one batch-write call came back with.
#[derive(Clone, Debug, PartialEq)]
pub enum StoreResponse {
    /// The call succeeded and the store committed every submitted item.
    Accepted,
    /// The call succeeded, but the store returned these items as not
    /// committed; an empty list means everything was committed.
    Partial(Vec<WriteRequest>),
    /// The call itself failed; nothing is known to have been committed,
    /// so the entire backlog is treated as still outstanding.
    Failed(StoreErrorKind),
}

/// Transient state of one chunk's ingestion, owned exclusively by the
/// ingestor driving that chunk: the attempt counter (completed backoff
/// cycles) and the backlog of items not yet confirmed written.
#[derive(Clone, Debug, PartialEq)]
pub struct RetryState {
    pub attempts: u32,
    pub backlog: Vec<WriteRequest>,
}

/// Per-chunk result, produced once and never mutated.
#[derive(Clone, Debug, PartialEq)]
pub enum IngestionOutcome {
    /// Every item of the chunk was eventually accepted by the store.
    Completed,
    /// The retry budget was exhausted with items still unprocessed.
    /// `remaining` is the backlog at that point — reported upward, never
    /// silently dropped — and `attempts_made` counts the batch-write
    /// calls issued for the chunk.
    Abandoned { remaining: Vec<WriteRequest>, attempts_made: u32 },
}

/// Mathematical outcome of a (possibly partial) run of one chunk.
pub enum OutcomeModel {
    /// All items accepted.
    Completed,
    /// Budget exhausted; `remaining` still outstanding after
    /// `attempts_made` store calls.
    Abandoned { remaining: Seq<WriteRequest>, attempts_made: nat },
    /// The response script ran out before the chunk reached a terminal
    /// state.
    Exhausted { backlog: Seq<WriteRequest>, attempts: nat },
}

impl View for IngestionOutcome {
    type V = OutcomeModel;

    open spec fn view(&self) -> OutcomeModel {
        match self {
            IngestionOutcome::Completed => OutcomeModel::Completed,
            IngestionOutcome::Abandoned { remaining, attempts_made } => OutcomeModel::Abandoned {
                remaining: remaining@,
                attempts_made: *attempts_made as nat,
            },
        }
    }
}

/// Mathematical result of one *Sending* transition.
pub enum StepModel {
    /// Backoff: sleep `delay` seconds, then resend `backlog`.
    Retry {
        backlog: Seq<WriteRequest>,
        attempts: nat,
        delay: int,
        accepted: Multiset<WriteRequest>,
    },
    /// The chunk reached a terminal state.
    Done { outcome: OutcomeModel, accepted: Multiset<WriteRequest> },
}

/// Whether an attempt counter is still within the configured budget.
pub open spec fn within_budget(budget: RetryBudget, attempts: nat) -> bool {
    match budget.max_attempts {
        Option::Some(m) => attempts <= m,
        Option::None => true,
    }
}

/// The *Backoff* transition: increment the attempt counter; once it
/// exceeds a configured cap the chunk is abandoned carrying the current
/// backlog, otherwise the next delay follows the doubling schedule and
/// the same backlog is resent.  `accepted` carries the items the store
/// confirmed in the step that led here.
pub open spec fn backoff_model(
    backlog: Seq<WriteRequest>,
    attempts: nat,
    budget: RetryBudget,
    accepted: Multiset<WriteRequest>,
) -> StepModel {
    if !within_budget(budget, attempts + 1) {
        StepModel::Done {
            outcome: OutcomeModel::Abandoned { remaining: backlog, attempts_made: attempts + 1 },
            accepted,
        }
    } else {
        StepModel::Retry {
            backlog,
            attempts: attempts + 1,
            delay: backoff_delay_spec(
                budget.initial_delay_secs,
                budget.max_delay_secs,
                attempts + 1,
            ),
            accepted,
        }
    }
}

/// One transition of the chunk state machine, from *Sending* with
/// `backlog` outstanding and `attempts` completed backoff cycles, on the
/// store's response to the batch-write call.
pub open spec fn step_model(
    backlog: Seq<WriteRequest>,
    attempts: nat,
    budget: RetryBudget,
    response: StoreResponse,
) -> StepModel {
    match response {
        StoreResponse::Accepted => StepModel::Done {
            outcome: OutcomeModel::Completed,
            accepted: backlog.to_multiset(),
        },
        StoreResponse::Partial(unprocessed) => if unprocessed@.len() == 0 {
            StepModel::Done { outcome: OutcomeModel::Completed, accepted: backlog.to_multiset() }
        } else {
            backoff_model(
                unprocessed@,
                attempts,
                budget,
                backlog.to_multiset().sub(unprocessed@.to_multiset()),
            )
        },
        StoreResponse::Failed(_) => backoff_model(backlog, attempts, budget, Multiset::empty()),
    }
}

/// How an executable step result corresponds to the model (the model's
/// `accepted` bookkeeping has no executable counterpart).
pub open spec fn step_matches(r: StepResult, m: StepModel) -> bool {
    match r {
        StepResult::Retry { state, delay_secs } => {
            &&& m matches StepModel::Retry { backlog, attempts, delay, .. }
            &&& state.backlog@ == backlog
            &&& state.attempts as nat == attempts
            &&& delay_secs as int == delay
        },
        StepResult::Done(outcome) => {
            &&& m matches StepModel::Done { outcome: om, .. }
            &&& outcome@ == om
        },
    }
}

/// Executable result of one transition.
#[derive(Clone, Debug, PartialEq)]
pub enum StepResult {
    /// Sleep `delay_secs` seconds, then resend the backlog in `state`.
    Retry { state: RetryState, delay_secs: u64 },
    /// The chunk reached a terminal state.
    Done(IngestionOutcome),
}

/// Copies a list of write requests.
fn copy_requests(v: &Vec<WriteRequest>) -> (r: Vec<WriteRequest>)
    ensures
        r@ == v@,
{
    let mut r: Vec<WriteRequest> = Vec::new();
    let mut j: usize = 0;
    while j < v.len()
        invariant
            j <= v@.len(),
            r@ =~= v@.subrange(0, j as int),
        decreases v@.len() - j,
    {
        r.push(v[j]);
        assert(r@ =~= v@.subrange(0, j + 1));
        j += 1;
    }
    assert(r@ =~= v@);
    r
}

/// The *Backoff* transition on a concrete backlog.
fn apply_backoff(backlog: Vec<WriteRequest>, attempts: u32, budget: &RetryBudget) -> (r:
    StepResult)
    requires
        attempts < u32::MAX,
    ensures
        step_matches(r, backoff_model(backlog@, attempts as nat, *budget, Multiset::empty())),
{
    let next = attempts + 1;
    let over = match budget.max_attempts {
        Option::Some(m) => next > m,
        Option::None => false,
    };
    if over {
        StepResult::Done(IngestionOutcome::Abandoned { remaining: backlog, attempts_made: next })
    } else {
        let delay_secs = backoff_delay(budget, next);
        StepResult::Retry { state: RetryState { attempts: next, backlog }, delay_secs }
    }
}

/// One transition of the chunk state machine: inspect the store's
/// response to the batch-write call that sent `state.backlog`, and either
/// finish the chunk or say how long to back off and what to resend.
pub fn step(state: RetryState, budget: &RetryBudget, response: &StoreResponse) -> (r: StepResult)
    requires
        state.attempts < u32::MAX,
    ensures
        step_matches(r, step_model(state.backlog@, state.attempts as nat, *budget, *response)),
{
    match response {
        StoreResponse::Accepted => StepResult::Done(IngestionOutcome::Completed),
        StoreResponse::Partial(unprocessed) => {
            if unprocessed.len() == 0 {
                StepResult::Done(IngestionOutcome::Completed)
            } else {
                let narrowed = copy_requests(unprocessed);
                apply_backoff(narrowed, state.attempts, budget)
            }
        },
        StoreResponse::Failed(_) => apply_backoff(state.backlog, state.attempts, budget),
    }
}

/// Mathematical run of one chunk against a finite script of store
/// responses, response `i` answering the `i+1`-th batch-write call.
pub struct RunModel {
    /// Where the run ended.
    pub outcome: OutcomeModel,
    /// The backoff delays slept through, in order, in seconds.
    pub delays: Seq<int>,
    /// The items the store confirmed during the run.
    pub accepted: Multiset<WriteRequest>,
}

/// Runs the chunk state machine from `backlog` and `attempts` through the
/// responses of `script`, in order, until a terminal state or the end of
/// the script.
pub open spec fn run_model(
    backlog: Seq<WriteRequest>,
    attempts: nat,
    budget: RetryBudget,
    script: Seq<StoreResponse>,
) -> RunModel
    decreases script.len(),
{
    if backlog.len() == 0 {
        RunModel {
            outcome: OutcomeModel::Completed,
            delays: Seq::empty(),
            accepted: Multiset::empty(),
        }
    } else if script.len() == 0 {
        RunModel {
            outcome: OutcomeModel::Exhausted { backlog, attempts },
            delays: Seq::empty(),
            accepted: Multiset::empty(),
        }
    } else {
        match step_model(backlog, attempts, budget, script[0]) {
            StepModel::Done { outcome, accepted } => RunModel {
                outcome,
                delays: Seq::empty(),
                accepted,
            },
            StepModel::Retry { backlog: b2, attempts: a2, delay, accepted } => {
                let rest = run_model(b2, a2, budget, script.drop_first());
                RunModel {
                    outcome: rest.outcome,
                    delays: seq![delay] + rest.delays,
                    accepted: accepted.add(rest.accepted),
                }
            },
        }
    }
}

/// Executable result of running one chunk against a response script.
#[derive(Clone, Debug, PartialEq)]
pub enum ChunkRun {
    /// The chunk reached a terminal state; `delays` lists the backoff
    /// delays slept through, in order, in seconds.
    Finished { outcome: IngestionOutcome, delays: Vec<u64> },
    /// The script ran out first; `state` is where the machine stood.
    Exhausted { state: RetryState, delays: Vec<u64> },
}

/// The outcome a [`ChunkRun`] stands for.
pub open spec fn run_outcome(r: ChunkRun) -> OutcomeModel {
    match r {
        ChunkRun::Finished { outcome, .. } => outcome@,
        ChunkRun::Exhausted { state, .. } => OutcomeModel::Exhausted {
            backlog: state.backlog@,
            attempts: state.attempts as nat,
        },
    }
}

/// The delays a [`ChunkRun`] slept through, as integers.
pub open spec fn run_delays(r: ChunkRun) -> Seq<int> {
    match r {
        ChunkRun::Finished { delays, .. } => delays@.map_values(|d: u64| d as int),
        ChunkRun::Exhausted { delays, .. } => delays@.map_values(|d: u64| d as int),
    }
}

/// Drives one chunk to completion or exhaustion against a script of store
/// responses, response `i` answering the `i+1`-th batch-write call: the
/// executable mirror of [`run_model`].
pub fn ingest_batch_chunk(chunk: &Vec<WriteRequest>, budget: &RetryBudget, script: &Vec<
    StoreResponse,
>) -> (r: ChunkRun)
    requires
        script@.len() < u32::MAX,
    ensures
        run_outcome(r) == run_model(chunk@, 0, *budget, script@).outcome,
        run_delays(r) == run_model(chunk@, 0, *budget, script@).delays,
{
    let ghost full = run_model(chunk@, 0, *budget, script@);
    let mut backlog = copy_requests(chunk);
    let mut attempts: u32 = 0;
    let mut delays: Vec<u64> = Vec::new();
    let mut i: usize = 0;
    proof {
        assert(script@.skip(0) =~= script@);
        assert(delays@.map_values(|d: u64| d as int) =~= Seq::<int>::empty());
    }
    while i < script.len()
        invariant
            i <= script@.len(),
            script@.len() < u32::MAX,
            attempts <= i,
            full == run_model(chunk@, 0, *budget, script@),
            full.outcome == run_model(
                backlog@,
                attempts as nat,
                *budget,
                script@.skip(i as int),
            ).outcome,
            full.delays =~= delays@.map_values(|d: u64| d as int) + run_model(
                backlog@,
                attempts as nat,
                *budget,
                script@.skip(i as int),
            ).delays,
        decreases script@.len() - i,
    {
        if backlog.len() == 0 {
            proof {
                assert(full.delays =~= delays@.map_values(|d: u64| d as int));
            }
            return ChunkRun::Finished { outcome: IngestionOutcome::Completed, delays };
        }
        let ghost rest_script = script@.skip(i as int);
        proof {
            assert(rest_script[0] == script@[i as int]);
            assert(rest_script.drop_first() =~= script@.skip(i as int + 1));
        }
        let res = step(RetryState { attempts, backlog }, budget, &script[i]);
        match res {
            StepResult::Done(outcome) => {
                proof {
                    assert(full.delays =~= delays@.map_values(|d: u64| d as int));
                }
                return ChunkRun::Finished { outcome, delays };
            },
            StepResult::Retry { state, delay_secs } => {
                proof {
                    let f = |d: u64| d as int;
                    assert(delays@.push(delay_secs).map_values(f) =~= delays@.map_values(f).push(
                        delay_secs as int,
                    ));
                    assert(full.delays =~= delays@.map_values(f).push(delay_secs as int)
                        + run_model(
                        state.backlog@,
                        state.attempts as nat,
                        *budget,
                        script@.skip(i as int + 1),
                    ).delays);
                }
                delays.push(delay_secs);
                attempts = state.attempts;
                backlog = state.backlog;
                i += 1;
            },
        }
    }
    proof {
        assert(script@.skip(script@.len() as int) =~= Seq::<StoreResponse>::empty());
        assert(full.delays =~= delays@.map_values(|d: u64| d as int));
    }
    if backlog.len() == 0 {
        ChunkRun::Finished { outcome: IngestionOutcome::Completed, delays }
    } else {
        ChunkRun::Exhausted { state: RetryState { attempts, backlog }, delays }
    }
}

/// A response script is well formed for a run when every partial-success
/// response returns a sub-multiset of the backlog that was sent: the
/// store cannot report as unprocessed an item it was never given.
pub open spec fn script_ok(
    backlog: Seq<WriteRequest>,
    attempts: nat,
    budget: RetryBudget,
    script: Seq<StoreResponse>,
) -> bool
    decreases script.len(),
{
    backlog.len() == 0 || script.len() == 0 || {
        let fits = match script[0] {
            StoreResponse::Partial(unprocessed) => unprocessed@.to_multiset().subset_of(
                backlog.to_multiset(),
            ),
            _ => true,
        };
        fits && match step_model(backlog, attempts, budget, script[0]) {
            StepModel::Retry { backlog: b2, attempts: a2, .. } => script_ok(
                b2,
                a2,
                budget,
                script.drop_first(),
            ),
            StepModel::Done { .. } => true,
        }
    }
}

/// What an outcome leaves outstanding: nothing for a completed chunk, the
/// reported backlog otherwise.
pub open spec fn outstanding(outcome: OutcomeModel) -> Multiset<WriteRequest> {
    match outcome {
        OutcomeModel::Completed => Multiset::empty(),
        OutcomeModel::Abandoned { remaining, .. } => remaining.to_multiset(),
        OutcomeModel::Exhausted { backlog, .. } => backlog.to_multiset(),
    }
}

/// No-loss: for any well-formed script of store responses — full success,
/// partial success with some unprocessed subset, or a failed call — the
/// items the store accepted during the run plus the outstanding backlog
/// of the outcome are exactly the items the run started with.  No item is
/// ever silently lost or duplicated.
pub proof fn lemma_no_loss(
    backlog: Seq<WriteRequest>,
    attempts: nat,
    budget: RetryBudget,
    script: Seq<StoreResponse>,
)
    requires
        script_ok(backlog, attempts, budget, script),
    ensures
        run_model(backlog, attempts, budget, script).accepted.add(
            outstanding(run_model(backlog, attempts, budget, script).outcome),
        ) =~= backlog.to_multiset(),
    decreases script.len(),
{
    broadcast use vstd::multiset::group_multiset_axioms;

    let run = run_model(backlog, attempts, budget, script);
    if backlog.len() == 0 {
        backlog.to_multiset_ensures();
        vstd::multiset::lemma_multiset_empty_len(backlog.to_multiset());
    } else if script.len() == 0 {
    } else {
        match step_model(backlog, attempts, budget, script[0]) {
            StepModel::Done { outcome, accepted } => {
                match script[0] {
                    StoreResponse::Accepted => {},
                    StoreResponse::Partial(unprocessed) => {
                        if unprocessed@.len() > 0 {
                            lemma_sub_add_cancel(backlog.to_multiset(), unprocessed@.to_multiset());
                        }
                    },
                    StoreResponse::Failed(_) => {},
                }
            },
            StepModel::Retry { backlog: b2, attempts: a2, delay, accepted } => {
                lemma_no_loss(b2, a2, budget, script.drop_first());
                let rest = run_model(b2, a2, budget, script.drop_first());
                match script[0] {
                    StoreResponse::Partial(unprocessed) => {
                        lemma_sub_add_cancel(backlog.to_multiset(), unprocessed@.to_multiset());
                        assert(accepted.add(rest.accepted.add(outstanding(rest.outcome)))
                            =~= backlog.to_multiset());
                    },
                    _ => {
                        assert(accepted.add(rest.accepted.add(outstanding(rest.outcome)))
                            =~= backlog.to_multiset());
                    },
                }
                assert(run.accepted.add(outstanding(run.outcome)) =~= accepted.add(
                    rest.accepted.add(outstanding(rest.outcome)),
                ));
            },
        }
    }
}

/// Removing a sub-multiset and adding it back restores the original.
proof fn lemma_sub_add_cancel(m: Multiset<WriteRequest>, part: Multiset<WriteRequest>)
    requires
        part.subset_of(m),
    ensures
        m.sub(part).add(part) =~= m,
{
    broadcast use vstd::multiset::group_multiset_axioms;

    assert forall|v: WriteRequest| m.sub(part).add(part).count(v) == m.count(v) by {
        assert(part.count(v) <= m.count(v));
    }
}

/// Budget respect: with a configured cap of `cap` attempts, a chunk whose
/// every store call fails is abandoned, with its whole backlog and after
/// exactly `cap - attempts` further backoff cycles, each delay following
/// the doubling schedule; the counter never exceeds the cap by more than
/// the final, abandoning increment.
pub proof fn lemma_budget_respect(
    backlog: Seq<WriteRequest>,
    attempts: nat,
    budget: RetryBudget,
    script: Seq<StoreResponse>,
    cap: nat,
)
    requires
        backlog.len() > 0,
        budget.max_attempts matches Option::Some(m) && m as nat == cap,
        attempts <= cap,
        script.len() > cap - attempts,
        forall|i: int| 0 <= i < script.len() ==> script[i] is Failed,
    ensures
        run_model(backlog, attempts, budget, script).outcome == (OutcomeModel::Abandoned {
            remaining: backlog,
            attempts_made: cap + 1,
        }),
        run_model(backlog, attempts, budget, script).delays.len() == cap - attempts,
        forall|j: int|
            0 <= j < cap - attempts ==> run_model(backlog, attempts, budget, script).delays[j]
                == backoff_delay_spec(
                budget.initial_delay_secs,
                budget.max_delay_secs,
                attempts + 1 + j as nat,
            ),
    decreases script.len(),
{
    assert(script[0] is Failed);
    if attempts == cap {
    } else {
        lemma_budget_respect(backlog, attempts + 1, budget, script.drop_first(), cap);
        let rest = run_model(backlog, attempts + 1, budget, script.drop_first());
        let run = run_model(backlog, attempts, budget, script);
        assert(run.delays == seq![
            backoff_delay_spec(budget.initial_delay_secs, budget.max_delay_secs, attempts + 1),
        ] + rest.delays);
        assert forall|j: int| 0 <= j < cap - attempts implies run.delays[j] == backoff_delay_spec(
            budget.initial_delay_secs,
            budget.max_delay_secs,
            attempts + 1 + j as nat,
        ) by {
            if j > 0 {
                assert(run.delays[j] == rest.delays[j - 1]);
            }
        }
    }
}

} // verus!
