use beacon_core::codec::DecodeFailure;
use beacon_core::errors::Error;
use beacon_core::metadata::{SchemaVersion, StoreItem, CURRENT_SCHEMA_VERSION};
use beacon_core::schema::{
    check_schema_version, migration_outcome, stored_schema_version, SchemaStep,
};

#[test]
fn fresh_store_gets_the_current_version() {
    assert_eq!(
        check_schema_version(None),
        Ok(SchemaStep::Initialize(SchemaVersion(CURRENT_SCHEMA_VERSION)))
    );
    assert_eq!(check_schema_version(None), Ok(SchemaStep::Initialize(SchemaVersion(21))));
}

#[test]
fn current_store_proceeds() {
    assert_eq!(check_schema_version(Some(SchemaVersion(21))), Ok(SchemaStep::Proceed));
}

#[test]
fn older_store_migrates_by_one_version() {
    assert_eq!(
        check_schema_version(Some(SchemaVersion(20))),
        Ok(SchemaStep::Migrate { from: SchemaVersion(20), to: SchemaVersion(21) })
    );
    assert_eq!(
        check_schema_version(Some(SchemaVersion(0))),
        Ok(SchemaStep::Migrate { from: SchemaVersion(0), to: SchemaVersion(1) })
    );
}

#[test]
fn newer_store_is_refused_as_a_downgrade() {
    assert_eq!(
        check_schema_version(Some(SchemaVersion(CURRENT_SCHEMA_VERSION + 1))),
        Err(Error::SchemaDowngrade { on_disk: SchemaVersion(22), supported: SchemaVersion(21) })
    );
    assert_eq!(
        check_schema_version(Some(SchemaVersion(u64::MAX))),
        Err(Error::SchemaDowngrade {
            on_disk: SchemaVersion(u64::MAX),
            supported: SchemaVersion(21)
        })
    );
}

#[test]
fn refused_store_is_left_as_it_was() {
    let mut store: Option<Vec<u8>> = Some(SchemaVersion(22).as_store_bytes());
    let before = store.clone();
    let on_disk = stored_schema_version(store.as_deref()).unwrap();
    match check_schema_version(on_disk) {
        Ok(SchemaStep::Initialize(version)) => store = Some(version.as_store_bytes()),
        Ok(SchemaStep::Migrate { to, .. }) => store = Some(to.as_store_bytes()),
        Ok(SchemaStep::Proceed) => {}
        Err(error) => assert!(matches!(error, Error::SchemaDowngrade { .. })),
    }
    assert_eq!(store, before);
}

#[test]
fn successful_migrations_end_at_the_current_version() {
    for start in [0u64, 1, 17, 20, 21] {
        let mut store: Option<Vec<u8>> = Some(SchemaVersion(start).as_store_bytes());
        let mut visited = vec![start];
        loop {
            let on_disk = stored_schema_version(store.as_deref()).unwrap();
            match check_schema_version(on_disk).unwrap() {
                SchemaStep::Proceed => break,
                SchemaStep::Initialize(_) => panic!("the store is not fresh"),
                SchemaStep::Migrate { from, to } => {
                    assert_eq!(Some(from), on_disk);
                    let now = migration_outcome(from, to, true, Some(to)).unwrap();
                    visited.push(now.as_u64());
                    store = Some(now.as_store_bytes());
                }
            }
        }
        let expected: Vec<u64> = (start..=21).collect();
        assert_eq!(visited, expected);
        assert_eq!(store, Some(SchemaVersion(CURRENT_SCHEMA_VERSION).as_store_bytes()));
    }
}

#[test]
fn fresh_store_is_opened_after_one_step() {
    let mut store: Option<Vec<u8>> = None;
    let on_disk = stored_schema_version(store.as_deref()).unwrap();
    assert_eq!(on_disk, None);
    if let Ok(SchemaStep::Initialize(version)) = check_schema_version(on_disk) {
        store = Some(version.as_store_bytes());
    }
    assert_eq!(store, Some(vec![21, 0, 0, 0, 0, 0, 0, 0]));
    let on_disk = stored_schema_version(store.as_deref()).unwrap();
    assert_eq!(check_schema_version(on_disk), Ok(SchemaStep::Proceed));
}

#[test]
fn failed_migration_is_an_error() {
    let failed = Err(Error::MigrationFailed { from: SchemaVersion(19), to: SchemaVersion(20) });
    let target = Some(SchemaVersion(20));
    assert_eq!(migration_outcome(SchemaVersion(19), SchemaVersion(20), false, target), failed);
    assert_eq!(
        migration_outcome(SchemaVersion(19), SchemaVersion(20), false, Some(SchemaVersion(19))),
        failed
    );
    assert_eq!(
        migration_outcome(SchemaVersion(19), SchemaVersion(20), true, target),
        Ok(SchemaVersion(20))
    );
}

#[test]
fn migration_that_misses_its_target_is_an_error() {
    let failed = Err(Error::MigrationFailed { from: SchemaVersion(19), to: SchemaVersion(20) });
    for after in [None, Some(SchemaVersion(19)), Some(SchemaVersion(21)), Some(SchemaVersion(0))] {
        assert_eq!(migration_outcome(SchemaVersion(19), SchemaVersion(20), true, after), failed);
    }
}

#[test]
fn stored_version_is_decoded() {
    assert_eq!(stored_schema_version(None), Ok(None));
    assert_eq!(
        stored_schema_version(Some(&[20, 0, 0, 0, 0, 0, 0, 0])),
        Ok(Some(SchemaVersion(20)))
    );
}

#[test]
fn corrupt_stored_version_is_an_error() {
    assert_eq!(
        stored_schema_version(Some(&[20, 0, 0])),
        Err(Error::SszDecodeError(DecodeFailure::InvalidByteLength { len: 3, expected: 8 }))
    );
}
