//! Proof-of-work mining on a work queue.
//!
//! `block` holds the blocks of the chain, their hash and the test that
//! makes a proof valid; `mining` cuts a range of proofs into chunks, one
//! task for each; `queue` is the work queue that hands tasks to a fixed set
//! of workers and collects what they report. `channel`, `hashing` and
//! `text` hold what these rest on.

pub mod block;
pub mod channel;
pub mod hashing;
pub mod mining;
pub mod queue;
pub mod text;
