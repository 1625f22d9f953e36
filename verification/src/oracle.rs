//! The external proof-verification oracle and the error taxonomy of a batch.
//!
//! The single-cell proof check is a cryptographic primitive that this crate
//! treats as an opaque collaborator: the caller supplies an implementation of
//! [`Oracle`], typically a KZG opening check against the row commitment. The
//! oracle is shared read-only by every worker of a batch and must therefore
//! be safe to invoke concurrently.

use vstd::prelude::*;
use crate::data::{Cell, Commitment, Dimensions};
use dusk_plonk::prelude::PublicParameters;

verus! {

/// Declares dusk-plonk's `PublicParameters` — the public setup of the
/// commitment scheme — as an opaque type. The batch runner never looks
/// inside it; it only hands a shared, reference-counted copy to the oracle.
#[verifier::external_type_specification]
#[verifier::external_body]
pub struct ExPublicParameters(PublicParameters);

/// The single-cell proof check, an external cryptographic primitive.
///
/// `verify` checks the proof carried by `cell` against the commitment of the
/// cell's row, interpreting both relative to the matrix `dimensions` and the
/// public `parameters`. It returns `Ok(true)` if the proof checks out,
/// `Ok(false)` if the check ran but the proof does not verify, and `Err(_)`
/// on a hard failure (malformed proof or commitment, dimension mismatch,
/// infrastructure failure). No contract is stated for it: the batch runner
/// promises only what holds whatever the oracle answers, and the exact
/// classification of every answer is proved of the aggregation step.
pub trait Oracle: Sized {
    /// The oracle's own hard-failure type, forwarded verbatim to the caller
    /// of a batch.
    type Error;

    /// Checks one cell's proof. Must be side-effect-free, must not panic,
    /// and must be safe to call concurrently from many worker threads on
    /// shared `parameters`; a hard failure is reported as `Err`, never by
    /// panicking the worker.
    fn verify(
        &self,
        parameters: &PublicParameters,
        dimensions: &Dimensions,
        commitment: &Commitment,
        cell: &Cell,
    ) -> Result<bool, Self::Error>;
}

/// Why a batch failed as a whole.
#[derive(Clone, Debug, PartialEq, Eq)]
pub enum VerificationError<E> {
    /// A cell's row has no commitment: `row` is the first offending row
    /// number and `commitment_count` the number of commitments supplied.
    /// Detected before any job is submitted.
    InvalidCommitmentIndex { row: u32, commitment_count: usize },
    /// The oracle reported a hard failure for some cell; the first error
    /// observed aborts the batch and is forwarded verbatim.
    Oracle(E),
}

} // verus!
