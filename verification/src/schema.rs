//! The check of the stored schema version that a node makes before it opens its store.
//!
//! The check itself touches no store. [`check_schema_version`] says what is to be done
//! for the version that the store holds; the caller does it, and asks again with the
//! version that the store holds then, until it is told to proceed.

use crate::errors::Error;
use crate::metadata::{SchemaVersion, StoreItem, CURRENT_SCHEMA_VERSION};
use vstd::prelude::*;

verus! {

/// What is to be done before the store may be used.
#[derive(Clone, Copy, Debug, PartialEq, Eq)]
pub enum SchemaStep {
    /// Nothing: the store is at the current version.
    Proceed,
    /// The store is fresh: write this version under the schema version key.
    Initialize(SchemaVersion),
    /// Run the migration that takes the store from `from` to `to`. It either leaves the
    /// store at `to`, or fails and leaves it at `from`.
    Migrate { from: SchemaVersion, to: SchemaVersion },
}

/// The step that a store with the version `on_disk` calls for. A store with a later
/// version than the current one is refused, and no step is taken on it.
pub open spec fn spec_check_schema_version(on_disk: Option<SchemaVersion>) -> Result<
    SchemaStep,
    Error,
> {
    match on_disk {
        None => Ok(SchemaStep::Initialize(SchemaVersion(CURRENT_SCHEMA_VERSION))),
        Some(version) => if version.0 == CURRENT_SCHEMA_VERSION {
            Ok(SchemaStep::Proceed)
        } else if version.0 < CURRENT_SCHEMA_VERSION {
            Ok(
                SchemaStep::Migrate {
                    from: version,
                    to: SchemaVersion((version.0 + 1) as u64),
                },
            )
        } else {
            Err(
                Error::SchemaDowngrade {
                    on_disk: version,
                    supported: SchemaVersion(CURRENT_SCHEMA_VERSION),
                },
            )
        },
    }
}

/// The version that the store holds if `stored` is what it holds under the schema
/// version key.
pub open spec fn spec_stored_schema_version(stored: Option<Seq<u8>>) -> Result<
    Option<SchemaVersion>,
    Error,
> {
    match stored {
        None => Ok(None),
        Some(bytes) => match SchemaVersion::spec_from_store_bytes(bytes) {
            Ok(version) => Ok(Some(version)),
            Err(error) => Err(error),
        },
    }
}

/// The version that the store holds once `step` has been carried out.
pub open spec fn spec_version_after(on_disk: Option<SchemaVersion>, step: SchemaStep) -> Option<
    SchemaVersion,
> {
    match step {
        SchemaStep::Proceed => on_disk,
        SchemaStep::Initialize(version) => Some(version),
        SchemaStep::Migrate { from, to } => Some(to),
    }
}

/// The number of steps between a store with the version `on_disk` and one that may be
/// used.
pub open spec fn spec_steps_left(on_disk: Option<SchemaVersion>) -> nat {
    match on_disk {
        None => 1,
        Some(version) => if version.0 <= CURRENT_SCHEMA_VERSION {
            (CURRENT_SCHEMA_VERSION - version.0) as nat
        } else {
            0
        },
    }
}

/// The version at which the store is opened if every step that the check calls for is
/// carried out, or the error that ends the check.
pub open spec fn spec_opened_at(on_disk: Option<SchemaVersion>) -> Result<SchemaVersion, Error>
    decreases spec_steps_left(on_disk),
{
    match spec_check_schema_version(on_disk) {
        Err(error) => Err(error),
        Ok(SchemaStep::Proceed) => Ok(on_disk.unwrap()),
        Ok(step) => spec_opened_at(spec_version_after(on_disk, step)),
    }
}

/// Reads the schema version from what the store holds under the schema version key.
pub fn stored_schema_version(stored: Option<&[u8]>) -> (version: Result<
    Option<SchemaVersion>,
    Error,
>)
    ensures
        version == spec_stored_schema_version(
            match stored {
                None => None,
                Some(bytes) => Some(bytes@),
            },
        ),
{
    match stored {
        None => Ok(None),
        Some(bytes) => match SchemaVersion::from_store_bytes(bytes) {
            Ok(version) => Ok(Some(version)),
            Err(error) => Err(error),
        },
    }
}

/// Decides what is to be done with a store whose version is `on_disk`, `None` being a
/// store that holds no version yet.
pub fn check_schema_version(on_disk: Option<SchemaVersion>) -> (step: Result<SchemaStep, Error>)
    ensures
        step == spec_check_schema_version(on_disk),
        step is Err <==> (on_disk matches Some(version) && version.0 > CURRENT_SCHEMA_VERSION),
        step matches Ok(SchemaStep::Migrate { from, to }) ==> on_disk == Some(from) && to.0
            == from.0 + 1 && to.0 <= CURRENT_SCHEMA_VERSION,
{
    match on_disk {
        None => Ok(SchemaStep::Initialize(SchemaVersion(CURRENT_SCHEMA_VERSION))),
        Some(version) => {
            if version.0 == CURRENT_SCHEMA_VERSION {
                Ok(SchemaStep::Proceed)
            } else if version.0 < CURRENT_SCHEMA_VERSION {
                Ok(SchemaStep::Migrate { from: version, to: SchemaVersion(version.0 + 1) })
            } else {
                Err(
                    Error::SchemaDowngrade {
                        on_disk: version,
                        supported: SchemaVersion(CURRENT_SCHEMA_VERSION),
                    },
                )
            }
        },
    }
}

/// The verdict on a migration that has run.
///
/// A migration succeeds only if it reports success and leaves the store at its target.
pub open spec fn spec_migration_outcome(
    from: SchemaVersion,
    to: SchemaVersion,
    succeeded: bool,
    on_disk_after: Option<SchemaVersion>,
) -> Result<SchemaVersion, Error> {
    if succeeded && on_disk_after == Some(to) {
        Ok(to)
    } else {
        Err(Error::MigrationFailed { from, to })
    }
}

/// Judges the migration from `from` to `to`, given what it reported and the version
/// that the store holds after it.
pub fn migration_outcome(
    from: SchemaVersion,
    to: SchemaVersion,
    succeeded: bool,
    on_disk_after: Option<SchemaVersion>,
) -> (outcome: Result<SchemaVersion, Error>)
    ensures
        outcome == spec_migration_outcome(from, to, succeeded, on_disk_after),
{
    let at_target = match on_disk_after {
        Some(version) => version.0 == to.0,
        None => false,
    };
    if succeeded && at_target {
        Ok(to)
    } else {
        Err(Error::MigrationFailed { from, to })
    }
}

/// A store that is fresh or no later than the current version is opened at the
/// current version, once every step that the check calls for has been carried out.
pub proof fn lemma_opened_at_current_version(on_disk: Option<SchemaVersion>)
    requires
        on_disk matches Some(version) ==> version.0 <= CURRENT_SCHEMA_VERSION,
    ensures
        spec_opened_at(on_disk) == Ok::<SchemaVersion, Error>(
            SchemaVersion(CURRENT_SCHEMA_VERSION),
        ),
    decreases spec_steps_left(on_disk),
{
    match spec_check_schema_version(on_disk) {
        Ok(SchemaStep::Proceed) => {},
        Ok(step) => {
            lemma_opened_at_current_version(spec_version_after(on_disk, step));
        },
        Err(_) => {},
    }
}

/// A store of a later version than the current one is refused as a downgrade, whatever
/// the version, and the check calls for no step on it.
pub proof fn lemma_downgrade_refused(version: SchemaVersion)
    requires
        version.0 > CURRENT_SCHEMA_VERSION,
    ensures
        spec_check_schema_version(Some(version)) == Err::<SchemaStep, Error>(
            Error::SchemaDowngrade {
                on_disk: version,
                supported: SchemaVersion(CURRENT_SCHEMA_VERSION),
            },
        ),
        spec_opened_at(Some(version)) is Err,
{
}

/// Every migration that the check calls for goes from the stored version to the next
/// one, and none goes beyond the current version.
pub proof fn lemma_migrations_skip_no_version(on_disk: Option<SchemaVersion>)
    ensures
        spec_check_schema_version(on_disk) matches Ok(SchemaStep::Migrate { from, to }) ==> {
            &&& on_disk == Some(from)
            &&& to.0 == from.0 + 1
            &&& to.0 <= CURRENT_SCHEMA_VERSION
            &&& spec_steps_left(Some(to)) + 1 == spec_steps_left(on_disk)
        },
{
}

} // verus!
