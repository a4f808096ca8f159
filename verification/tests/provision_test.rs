use codebased::error::InitError;
use codebased::protocol::Reply;
use codebased::provision::{
    create_cbignore, create_database, next_migration, store_is_held, IgnoreStage, Progress, StoreStage,
};

fn failed(detail: &str) -> Reply {
    Reply::Failed { detail: detail.to_string() }
}

#[test]
fn existing_ignore_file_is_kept() {
    assert_eq!(create_cbignore(IgnoreStage::Probing, Reply::Found { present: true }), Progress::Complete);
}

#[test]
fn absent_ignore_file_is_created() {
    assert_eq!(
        create_cbignore(IgnoreStage::Probing, Reply::Found { present: false }),
        Progress::Pending { stage: IgnoreStage::Creating }
    );
    assert_eq!(create_cbignore(IgnoreStage::Creating, Reply::Done), Progress::Complete);
}

#[test]
fn ignore_file_failures_are_io_errors() {
    for stage in [IgnoreStage::Probing, IgnoreStage::Creating] {
        assert_eq!(
            create_cbignore(stage, failed("Read-only file system")),
            Progress::Failed { error: InitError::IgnoreFileIo { detail: "Read-only file system".to_string() } }
        );
    }
}

#[test]
fn ignore_file_waits_on_other_replies() {
    assert_eq!(create_cbignore(IgnoreStage::Probing, Reply::Done), Progress::Pending { stage: IgnoreStage::Probing });
    assert_eq!(
        create_cbignore(IgnoreStage::Probing, Reply::Version { version: 3 }),
        Progress::Pending { stage: IgnoreStage::Probing }
    );
    assert_eq!(
        create_cbignore(IgnoreStage::Creating, Reply::Found { present: true }),
        Progress::Pending { stage: IgnoreStage::Creating }
    );
    assert_eq!(
        create_cbignore(IgnoreStage::Creating, Reply::Version { version: 3 }),
        Progress::Pending { stage: IgnoreStage::Creating }
    );
}

#[test]
fn store_is_opened_then_put_into_write_ahead_mode_then_asked_its_version() {
    assert_eq!(
        create_database(StoreStage::Opening, Reply::Done, 4),
        Progress::Pending { stage: StoreStage::EnablingWriteAhead }
    );
    assert_eq!(
        create_database(StoreStage::EnablingWriteAhead, Reply::Done, 4),
        Progress::Pending { stage: StoreStage::ReadingVersion }
    );
    assert_eq!(
        create_database(StoreStage::ReadingVersion, Reply::Version { version: 0 }, 4),
        Progress::Pending { stage: StoreStage::Applying { version: 1 } }
    );
}

#[test]
fn migrations_are_applied_one_version_at_a_time() {
    assert_eq!(
        create_database(StoreStage::Applying { version: 1 }, Reply::Done, 3),
        Progress::Pending { stage: StoreStage::Applying { version: 2 } }
    );
    assert_eq!(
        create_database(StoreStage::Applying { version: 2 }, Reply::Done, 3),
        Progress::Pending { stage: StoreStage::Applying { version: 3 } }
    );
    assert_eq!(create_database(StoreStage::Applying { version: 3 }, Reply::Done, 3), Progress::Complete);
}

#[test]
fn store_at_or_beyond_latest_needs_no_migration() {
    assert_eq!(create_database(StoreStage::ReadingVersion, Reply::Version { version: 3 }, 3), Progress::Complete);
    assert_eq!(create_database(StoreStage::ReadingVersion, Reply::Version { version: 8 }, 3), Progress::Complete);
    assert_eq!(create_database(StoreStage::ReadingVersion, Reply::Version { version: 0 }, 0), Progress::Complete);
    assert_eq!(
        create_database(StoreStage::ReadingVersion, Reply::Version { version: usize::MAX }, usize::MAX),
        Progress::Complete
    );
}

#[test]
fn last_pending_migration_is_the_latest() {
    assert_eq!(
        create_database(StoreStage::ReadingVersion, Reply::Version { version: usize::MAX - 1 }, usize::MAX),
        Progress::Pending { stage: StoreStage::Applying { version: usize::MAX } }
    );
}

#[test]
fn failed_migration_names_its_version() {
    assert_eq!(
        create_database(StoreStage::Applying { version: 2 }, failed("duplicate column name: c"), 3),
        Progress::Failed {
            error: InitError::Migration { version: 2, detail: "duplicate column name: c".to_string() }
        }
    );
}

#[test]
fn other_store_failures_are_open_errors() {
    for stage in [StoreStage::Opening, StoreStage::EnablingWriteAhead, StoreStage::ReadingVersion] {
        assert_eq!(
            create_database(stage, failed("database disk image is malformed"), 3),
            Progress::Failed {
                error: InitError::StoreOpen { detail: "database disk image is malformed".to_string() }
            }
        );
    }
}

#[test]
fn store_waits_on_other_replies() {
    let stages = [
        StoreStage::Opening,
        StoreStage::EnablingWriteAhead,
        StoreStage::ReadingVersion,
        StoreStage::Applying { version: 1 },
    ];
    for stage in stages {
        assert_eq!(create_database(stage, Reply::Found { present: true }, 3), Progress::Pending { stage });
    }
    assert_eq!(
        create_database(StoreStage::ReadingVersion, Reply::Done, 3),
        Progress::Pending { stage: StoreStage::ReadingVersion }
    );
    for stage in [StoreStage::Opening, StoreStage::EnablingWriteAhead, StoreStage::Applying { version: 1 }] {
        assert_eq!(create_database(stage, Reply::Version { version: 1 }, 3), Progress::Pending { stage });
    }
}

#[test]
fn next_migration_is_one_above_the_recorded_version() {
    assert_eq!(next_migration(0, 2), Progress::Pending { stage: StoreStage::Applying { version: 1 } });
    assert_eq!(next_migration(1, 2), Progress::Pending { stage: StoreStage::Applying { version: 2 } });
    assert_eq!(next_migration(2, 2), Progress::Complete);
    assert_eq!(next_migration(3, 2), Progress::Complete);
}

#[test]
fn store_is_held_from_the_moment_it_was_opened() {
    assert!(!store_is_held(StoreStage::Opening));
    assert!(store_is_held(StoreStage::EnablingWriteAhead));
    assert!(store_is_held(StoreStage::ReadingVersion));
    assert!(store_is_held(StoreStage::Applying { version: 1 }));
}
