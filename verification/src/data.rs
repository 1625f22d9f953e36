//! The data model of a batch: positions, matrix dimensions, cells and row
//! commitments. All of it is created by the caller and read-only during
//! verification.

use vstd::prelude::*;

verus! {

/// Number of bytes in a row commitment: a compressed elliptic-curve point.
pub const COMMITMENT_SIZE: usize = 48;

/// A commitment to one row of the matrix.
pub type Commitment = [u8; COMMITMENT_SIZE];

/// The location of a cell in the 2D matrix: row and column, compared by
/// value.
#[derive(Clone, Copy, PartialEq, Eq, Hash, PartialOrd, Ord, Debug, Structural)]
pub struct Position {
    pub row: u32,
    pub col: u16,
}

/// The shape of the matrix (rows x columns) that the verification oracle
/// needs to interpret a cell's proof relative to its row commitment.
#[derive(Clone, Copy, PartialEq, Eq, Debug, Structural)]
pub struct Dimensions {
    pub rows: u16,
    pub cols: u16,
}

/// One unit of verification work: a position in the matrix and the opaque
/// proof payload for the data at that position.
#[derive(Clone, Debug)]
pub struct Cell {
    pub position: Position,
    pub content: Vec<u8>,
}

} // verus!
