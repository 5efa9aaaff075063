use ats_scanner::migrations::{split_sql_statements, Migration, MigrationManager, MigrationRecord, RollbackError};

fn migration(version: i32, checksum: &str, down: &str) -> Migration {
    Migration {
        version,
        name: format!("m{}", version),
        description: String::new(),
        up_sql: "CREATE TABLE t (x INTEGER);".to_string(),
        down_sql: down.to_string(),
        checksum: checksum.to_string(),
    }
}

#[test]
fn shipped_migrations_are_all_pending_at_version_zero() {
    let mut manager = MigrationManager::new();
    manager.register_migrations();
    assert_eq!(manager.latest_available(), 5);
    let pending: Vec<i32> = manager.pending_migrations(0).iter().map(|m| m.version).collect();
    assert_eq!(pending, vec![1, 2, 3, 4, 5]);
    let pending: Vec<i32> = manager.pending_migrations(3).iter().map(|m| m.version).collect();
    assert_eq!(pending, vec![4, 5]);
    assert!(manager.pending_migrations(5).is_empty());
    let schema = manager.schema_version(5, Vec::new());
    assert!(schema.is_up_to_date);
    assert_eq!(manager.migration(2).unwrap().checksum, "dynamic_keywords_v1");
}

#[test]
fn registration_replaces_and_orders_versions() {
    let mut manager = MigrationManager::new();
    assert_eq!(manager.latest_available(), 0);
    manager.register_migration(migration(7, "a", "DROP TABLE t"));
    manager.register_migration(migration(3, "b", "DROP TABLE t"));
    manager.register_migration(migration(7, "c", "DROP TABLE t"));
    assert_eq!(manager.latest_available(), 7);
    let pending: Vec<(i32, String)> =
        manager.pending_migrations(0).iter().map(|m| (m.version, m.checksum.clone())).collect();
    assert_eq!(pending, vec![(3, "b".to_string()), (7, "c".to_string())]);
}

#[test]
fn rollback_needs_a_registered_migration_with_a_script() {
    let mut manager = MigrationManager::new();
    manager.register_migration(migration(1, "a", "  \n "));
    manager.register_migration(migration(2, "b", "DROP TABLE t;"));
    assert_eq!(manager.rollback_target(9).unwrap_err(), RollbackError::NotFound(9));
    assert_eq!(manager.rollback_target(9).unwrap_err().message(), "Migration 9 not found");
    let e = manager.rollback_target(1).unwrap_err();
    assert_eq!(e, RollbackError::NoRollbackSql(1));
    assert_eq!(e.message(), "Migration 1 has no rollback SQL");
    assert_eq!(manager.rollback_target(2).unwrap().version, 2);
}

#[test]
fn integrity_reports_unknown_and_changed_migrations() {
    let mut manager = MigrationManager::new();
    manager.register_migrations();
    let record = |version: i32, checksum: &str| MigrationRecord {
        version,
        name: String::new(),
        checksum: checksum.to_string(),
        applied_at: "2024-01-01T00:00:00+00:00".to_string(),
        execution_time_ms: 0,
    };
    let applied = vec![record(1, "performance_indexes_v1"), record(2, "old"), record(-12, "x")];
    assert_eq!(
        manager.verify_integrity(&applied),
        vec![
            "Migration 2 checksum mismatch: expected 'dynamic_keywords_v1', found 'old'".to_string(),
            "Applied migration -12 not found in registered migrations".to_string(),
        ]
    );
}

#[test]
fn scripts_split_into_trimmed_statements() {
    let parts = split_sql_statements("  CREATE A;\n\n ;DROP B ;  -- c \n");
    assert_eq!(parts, vec!["CREATE A".to_string(), "DROP B".to_string(), "-- c".to_string()]);
    assert!(split_sql_statements(" ; ;\n").is_empty());
}
