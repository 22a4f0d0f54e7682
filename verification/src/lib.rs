//! Persistence metadata and deposit validation for a beacon-chain consensus client.
//!
//! * [`codec`]: the canonical binary form of integers, flags, hashes, optional
//!   slots and length offsets.
//! * [`types`]: slots, epochs, hashes, checkpoints and the parts of the chain
//!   state that deposit validation reads.
//! * [`errors`]: the fatal errors of the metadata store.
//! * [`metadata`]: the node-local bookkeeping records and their store keys.
//! * [`schema`]: the start-up check of the on-disk schema version.
//! * [`hashing`]: SHA-256.
//! * [`merkle`]: recomputation of a Merkle root from a leaf and its branch.
//! * [`deposit`]: admission checks for validator deposits.

pub mod types;
pub mod codec;
pub mod errors;
pub mod metadata;
pub mod schema;
pub mod hashing;
pub mod merkle;
pub mod deposit;
