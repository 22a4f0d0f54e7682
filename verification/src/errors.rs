//! Errors of the metadata store.

use crate::codec::DecodeFailure;
use crate::metadata::SchemaVersion;
use vstd::prelude::*;

verus! {

/// Why the metadata store cannot be used. Each of these is fatal.
#[derive(Clone, Copy, Debug, PartialEq, Eq)]
pub enum Error {
    /// Stored bytes are not the canonical form of the record that was asked for: the
    /// store is corrupt.
    SszDecodeError(DecodeFailure),
    /// The store was written by a later schema than this build supports.
    SchemaDowngrade { on_disk: SchemaVersion, supported: SchemaVersion },
    /// The migration from one schema version to the next did not succeed.
    MigrationFailed { from: SchemaVersion, to: SchemaVersion },
}

} // verus!
