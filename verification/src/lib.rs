//! Batch verification of per-cell cryptographic proofs on a bounded worker
//! pool.
//!
//! A block's data is laid out as a 2D matrix of cells. Each cell carries a
//! proof that is checked against the commitment of its row by an external
//! cryptographic oracle. This crate fans the independent per-cell checks out
//! onto a fixed-size worker pool, collects the outcomes over a bounded
//! channel, and partitions the cell positions into a verified and an
//! unverified list, aborting the whole batch on the first hard oracle error.

pub mod batch;
pub mod data;
pub mod oracle;
pub mod outcome;
