//! The batch runner: fans one verification job per cell out onto a
//! fixed-size worker pool, fans the outcomes back in over a bounded channel,
//! and aggregates them into the two position lists.
//!
//! The row of every cell is validated against the commitment list before any
//! job is submitted, so a missing commitment surfaces as a structured error
//! instead of a fault. Once submitted, jobs run to completion even if the
//! batch aborts early on a hard oracle error; their late channel sends are
//! discarded as harmless.

use vstd::prelude::*;
use crate::data::{Cell, Commitment, Dimensions, Position};
use crate::oracle::{Oracle, VerificationError};
use crate::outcome::{lemma_partition_complete, partition_outcomes, Outcome};
use crossbeam_channel::{Receiver, Sender};
use dusk_plonk::prelude::PublicParameters;
use std::sync::Arc;
use threadpool::ThreadPool;

verus! {

/// Declares threadpool's `ThreadPool` as an opaque type: a fixed set of
/// worker threads with an unbounded task queue, reused across submissions.
#[verifier::external_type_specification]
#[verifier::external_body]
pub struct ExThreadPool(ThreadPool);

/// Declares crossbeam's `Sender` as an opaque type: the producer half of a
/// channel, cloned once per submitted job.
#[verifier::external_type_specification]
#[verifier::external_body]
#[verifier::reject_recursive_types(T)]
pub struct ExSender<T>(Sender<T>);

/// Declares crossbeam's `Receiver` as an opaque type: the consumer half of a
/// channel, drained only by the submitting thread.
#[verifier::external_type_specification]
#[verifier::external_body]
#[verifier::reject_recursive_types(T)]
pub struct ExReceiver<T>(Receiver<T>);

/// Every cell's row has a commitment: each row number is below the number of
/// commitments supplied.
pub open spec fn rows_in_range(cells: Seq<Cell>, commitment_count: int) -> bool {
    forall|i: int| 0 <= i < cells.len() ==> (#[trigger] cells[i]).position.row < commitment_count
}

/// `row` is the row of the first cell whose row has no commitment.
pub open spec fn first_row_violation(cells: Seq<Cell>, commitment_count: int, row: u32) -> bool {
    exists|i: int|
        {
            &&& 0 <= i < cells.len()
            &&& (#[trigger] cells[i]).position.row == row
            &&& row >= commitment_count
            &&& forall|j: int| 0 <= j < i ==> cells[j].position.row < commitment_count
        }
}

/// Relies on num_cpus::get: the number of available logical processing
/// units, documented to always be at least 1.
#[verifier::external_body]
fn available_workers() -> (n: usize)
    ensures
        1 <= n,
{
    num_cpus::get()
}

/// Relies on threadpool::ThreadPool::new: a pool of exactly `workers` worker
/// threads sharing one task queue. It panics on zero workers, so zero is
/// required away.
#[verifier::external_body]
fn pool_new(workers: usize) -> ThreadPool
    requires
        1 <= workers,
{
    ThreadPool::new(workers)
}

/// Relies on crossbeam_channel::bounded: a multi-producer single-consumer
/// channel of fixed capacity `cap`. Capacity is set to the job count, so no
/// worker ever blocks delivering its outcome.
#[verifier::external_body]
fn outcome_channel<E>(cap: usize) -> (Sender<Outcome<E>>, Receiver<Outcome<E>>) {
    crossbeam_channel::bounded(cap)
}

/// Relies on crossbeam_channel::Sender::send: delivers the outcome unless
/// the receiver is gone. The receiver is abandoned only after the batch has
/// concluded, so a failed late send is discarded as harmless by design.
#[verifier::external_body]
fn send_outcome<E>(tx: &Sender<Outcome<E>>, outcome: Outcome<E>) {
    let _ = tx.send(outcome);
}

/// Relies on crossbeam_channel::Receiver::recv: blocks until a message
/// arrives, and fails only when the channel is empty and every sender is
/// dropped. `live` witnesses that one sender stays alive for the whole call,
/// so a message is the only possible outcome.
#[verifier::external_body]
fn recv_outcome<E>(rx: &Receiver<Outcome<E>>, live: &Sender<Outcome<E>>) -> Outcome<E> {
    let _ = live;
    rx.recv().unwrap()
}

/// Relies on threadpool::ThreadPool::execute: queues the job to run on a
/// worker thread. The closure hands shared clones of the oracle and the
/// public parameters plus the job's own cell data to the verified job body
/// `run_job`, and nothing else.
#[verifier::external_body]
fn submit_job<O: Oracle + Send + Sync + 'static>(
    pool: &ThreadPool,
    oracle: &Arc<O>,
    parameters: &Arc<PublicParameters>,
    dimensions: Dimensions,
    commitment: &Commitment,
    cell: &Cell,
    tx: &Sender<Outcome<O::Error>>,
) where O::Error: Send + 'static {
    let (oracle, parameters) = (oracle.clone(), parameters.clone());
    let (commitment, cell, tx) = (*commitment, cell.clone(), tx.clone());
    pool.execute(move || run_job(&*oracle, &*parameters, dimensions, &commitment, &cell, &tx));
}

/// One verification job, run on a worker thread: asks the oracle about the
/// cell and reports `(position, result)` on the channel.
fn run_job<O: Oracle>(
    oracle: &O,
    parameters: &PublicParameters,
    dimensions: Dimensions,
    commitment: &Commitment,
    cell: &Cell,
    tx: &Sender<Outcome<O::Error>>,
) {
    let position = cell.position;
    let result = oracle.verify(parameters, &dimensions, commitment, cell);
    send_outcome(tx, (position, result));
}

/// Verifies the proofs of `cells` against the `commitments` of their rows on
/// a pool of exactly `workers` worker threads, and splits the positions into
/// the verified and the unverified list.
///
/// The two lists come back in worker completion order: callers must treat
/// them as unordered sets. The batch is all-or-nothing: either every cell is
/// classified, or the first hard error observed is returned and no partial
/// classification is. A cell row without a commitment is rejected before any
/// job is submitted. Which hard error is returned when several jobs fail
/// concurrently depends on scheduling and is deliberately unspecified; it is
/// always one reported by the oracle.
#[verifier::loop_isolation(false)]
pub fn verify_with_workers<O: Oracle + Send + Sync + 'static>(
    block_num: u32,
    dimensions: Dimensions,
    cells: &[Cell],
    commitments: &[Commitment],
    public_parameters: Arc<PublicParameters>,
    oracle: Arc<O>,
    workers: usize,
) -> (r: Result<(Vec<Position>, Vec<Position>), VerificationError<O::Error>>) where
    O::Error: Send + 'static,

    requires
        1 <= workers,
    ensures
        match r {
            Ok(lists) => {
                &&& rows_in_range(cells@, commitments@.len() as int)
                &&& lists.0@.len() + lists.1@.len() == cells@.len()
            },
            Err(VerificationError::InvalidCommitmentIndex { row, commitment_count }) => {
                &&& commitment_count == commitments@.len()
                &&& first_row_violation(cells@, commitments@.len() as int, row)
            },
            Err(VerificationError::Oracle(_)) => {
                &&& rows_in_range(cells@, commitments@.len() as int)
                &&& cells@.len() > 0
            },
        },
        rows_in_range(cells@, commitments@.len() as int) ==> !(r matches Err(
            VerificationError::InvalidCommitmentIndex { .. },
        )),
        !rows_in_range(cells@, commitments@.len() as int) ==> (r matches Err(
            VerificationError::InvalidCommitmentIndex { .. },
        )),
        cells@.len() == 0 ==> (r matches Ok(lists) && lists.0@ == Seq::<Position>::empty()
            && lists.1@ == Seq::<Position>::empty()),
{
    // The block number exists to tag diagnostic output in surrounding
    // applications; the verification itself does not depend on it.
    let _ = block_num;
    let n = cells.len();
    if n == 0 {
        return Ok((Vec::new(), Vec::new()));
    }

    // Reject any cell whose row has no commitment before submitting work.
    let count = commitments.len();
    let mut i: usize = 0;
    while i < n
        invariant
            i <= n,
            forall|j: int| 0 <= j < i ==> (#[trigger] cells@[j]).position.row < count,
        decreases n - i,
    {
        let row = cells[i].position.row;
        if row as usize >= count {
            return Err(VerificationError::InvalidCommitmentIndex {
                row,
                commitment_count: count,
            });
        }
        i += 1;
    }

    // Fan out: one independent job per cell, sharing the oracle and the
    // public parameters read-only.
    let pool = pool_new(workers);
    let (tx, rx) = outcome_channel::<O::Error>(n);
    let mut i: usize = 0;
    while i < n
        invariant
            i <= n,
        decreases n - i,
    {
        let row = cells[i].position.row as usize;
        submit_job(&pool, &oracle, &public_parameters, dimensions, &commitments[row], &cells[i], &tx);
        i += 1;
    }

    // Fan in: drain exactly one outcome per submitted job. The submitting
    // thread keeps its own sender alive until the drain is done, so a
    // receive can only block, never fail.
    let mut outcomes: Vec<Outcome<O::Error>> = Vec::new();
    let mut got: usize = 0;
    while got < n
        invariant
            got <= n,
            outcomes@.len() == got,
        decreases n - got,
    {
        let outcome = recv_outcome(&rx, &tx);
        outcomes.push(outcome);
        got += 1;
    }

    // Aggregate: classify every position, or forward the first hard error.
    let ghost collected = outcomes@;
    match partition_outcomes(outcomes) {
        Ok(lists) => {
            proof {
                lemma_partition_complete(collected);
            }
            Ok(lists)
        },
        Err(e) => Err(VerificationError::Oracle(e)),
    }
}

/// Verifies the proofs of `cells` for one block, as
/// [`verify_with_workers`] does, with the worker count taken from the number
/// of available processing units of the host.
pub fn verify<O: Oracle + Send + Sync + 'static>(
    block_num: u32,
    dimensions: Dimensions,
    cells: &[Cell],
    commitments: &[Commitment],
    public_parameters: Arc<PublicParameters>,
    oracle: Arc<O>,
) -> (r: Result<(Vec<Position>, Vec<Position>), VerificationError<O::Error>>) where
    O::Error: Send + 'static,

    ensures
        match r {
            Ok(lists) => {
                &&& rows_in_range(cells@, commitments@.len() as int)
                &&& lists.0@.len() + lists.1@.len() == cells@.len()
            },
            Err(VerificationError::InvalidCommitmentIndex { row, commitment_count }) => {
                &&& commitment_count == commitments@.len()
                &&& first_row_violation(cells@, commitments@.len() as int, row)
            },
            Err(VerificationError::Oracle(_)) => {
                &&& rows_in_range(cells@, commitments@.len() as int)
                &&& cells@.len() > 0
            },
        },
        rows_in_range(cells@, commitments@.len() as int) ==> !(r matches Err(
            VerificationError::InvalidCommitmentIndex { .. },
        )),
        !rows_in_range(cells@, commitments@.len() as int) ==> (r matches Err(
            VerificationError::InvalidCommitmentIndex { .. },
        )),
        cells@.len() == 0 ==> (r matches Ok(lists) && lists.0@ == Seq::<Position>::empty()
            && lists.1@ == Seq::<Position>::empty()),
{
    let workers = available_workers();
    verify_with_workers(block_num, dimensions, cells, commitments, public_parameters, oracle, workers)
}

} // verus!
