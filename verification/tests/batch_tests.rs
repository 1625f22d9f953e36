use dusk_plonk::prelude::PublicParameters;
use proof_batch::batch::{verify, verify_with_workers};
use proof_batch::data::{Cell, Commitment, Dimensions, Position, COMMITMENT_SIZE};
use proof_batch::oracle::{Oracle, VerificationError};
use rand::rngs::StdRng;
use rand::SeedableRng;
use std::sync::Arc;

fn pos(row: u32, col: u16) -> Position {
    Position { row, col }
}

fn cell(row: u32, col: u16) -> Cell {
    Cell { position: pos(row, col), content: vec![0u8; 80] }
}

fn params() -> Arc<PublicParameters> {
    let mut rng = StdRng::seed_from_u64(42);
    Arc::new(PublicParameters::setup(1, &mut rng).unwrap())
}

fn dims() -> Dimensions {
    Dimensions { rows: 4, cols: 4 }
}

/// Deterministic stub: a cell's proof "verifies" exactly when it sits on the
/// main diagonal of the matrix.
struct DiagonalOracle;

impl Oracle for DiagonalOracle {
    type Error = String;

    fn verify(
        &self,
        _parameters: &PublicParameters,
        _dimensions: &Dimensions,
        _commitment: &Commitment,
        cell: &Cell,
    ) -> Result<bool, String> {
        Ok(u32::from(cell.position.col) == cell.position.row)
    }
}

/// Stub that fails hard on one chosen position and accepts every other.
struct FailAtOracle {
    row: u32,
    col: u16,
}

impl Oracle for FailAtOracle {
    type Error = String;

    fn verify(
        &self,
        _parameters: &PublicParameters,
        _dimensions: &Dimensions,
        _commitment: &Commitment,
        cell: &Cell,
    ) -> Result<bool, String> {
        if cell.position.row == self.row && cell.position.col == self.col {
            Err("oracle failure".to_string())
        } else {
            Ok(true)
        }
    }
}

fn commitments(n: usize) -> Vec<Commitment> {
    vec![[0u8; COMMITMENT_SIZE]; n]
}

#[test]
fn empty_batch_returns_two_empty_lists() {
    let (verified, unverified) =
        verify_with_workers(7, dims(), &[], &commitments(0), params(), Arc::new(DiagonalOracle), 1)
            .unwrap();
    assert!(verified.is_empty());
    assert!(unverified.is_empty());
}

#[test]
fn four_cell_scenario_partitions_by_diagonal() {
    let cells = [cell(0, 0), cell(0, 1), cell(1, 0), cell(1, 1)];
    let (mut verified, mut unverified) = verify_with_workers(
        1,
        dims(),
        &cells,
        &commitments(2),
        params(),
        Arc::new(DiagonalOracle),
        4,
    )
    .unwrap();
    verified.sort();
    unverified.sort();
    assert_eq!(verified, vec![pos(0, 0), pos(1, 1)]);
    assert_eq!(unverified, vec![pos(0, 1), pos(1, 0)]);
}

#[test]
fn repeated_runs_yield_identical_partition_sets() {
    let cells = [cell(0, 0), cell(0, 1), cell(0, 2), cell(1, 0), cell(1, 1), cell(2, 2)];
    let mut first: Option<(Vec<Position>, Vec<Position>)> = None;
    for _ in 0..20 {
        let (mut verified, mut unverified) = verify_with_workers(
            1,
            dims(),
            &cells,
            &commitments(3),
            params(),
            Arc::new(DiagonalOracle),
            4,
        )
        .unwrap();
        verified.sort();
        unverified.sort();
        match &first {
            None => first = Some((verified, unverified)),
            Some((v, u)) => {
                assert_eq!(&verified, v);
                assert_eq!(&unverified, u);
            },
        }
    }
}

#[test]
fn oracle_error_aborts_the_batch() {
    let cells = [cell(0, 0), cell(0, 1), cell(1, 0), cell(1, 1)];
    let err = verify_with_workers(
        1,
        dims(),
        &cells,
        &commitments(2),
        params(),
        Arc::new(FailAtOracle { row: 0, col: 1 }),
        1,
    )
    .unwrap_err();
    assert_eq!(err, VerificationError::Oracle("oracle failure".to_string()));
}

#[test]
fn missing_commitment_is_rejected_before_any_job() {
    // Boundary: the offending row number equals the commitment count.
    let cells = [cell(0, 0), cell(2, 1)];
    let err = verify_with_workers(
        1,
        dims(),
        &cells,
        &commitments(2),
        params(),
        Arc::new(DiagonalOracle),
        1,
    )
    .unwrap_err();
    assert_eq!(err, VerificationError::InvalidCommitmentIndex { row: 2, commitment_count: 2 });
}

#[test]
fn first_out_of_range_row_is_reported() {
    let cells = [cell(0, 0), cell(5, 0), cell(7, 0)];
    let err =
        verify_with_workers(1, dims(), &cells, &commitments(1), params(), Arc::new(DiagonalOracle), 1)
            .unwrap_err();
    assert_eq!(err, VerificationError::InvalidCommitmentIndex { row: 5, commitment_count: 1 });
}

#[test]
fn default_worker_count_verifies_a_batch() {
    let cells = [cell(0, 0), cell(1, 0)];
    let (mut verified, mut unverified) =
        verify(3, dims(), &cells, &commitments(2), params(), Arc::new(DiagonalOracle)).unwrap();
    verified.sort();
    unverified.sort();
    assert_eq!(verified, vec![pos(0, 0)]);
    assert_eq!(unverified, vec![pos(1, 0)]);
}
