use pharmacare::migration::{applied_version, migrations, pending, MigrationKind, SCHEMA_SQL, SEED_SQL};

#[test]
fn two_migrations_in_order() {
    let ms = migrations();
    assert_eq!(ms.len(), 2);
    assert_eq!(ms[0].version, 1);
    assert_eq!(ms[0].description, "create initial schema");
    assert_eq!(ms[0].sql, SCHEMA_SQL);
    assert_eq!(ms[0].kind, MigrationKind::Up);
    assert_eq!(ms[1].version, 2);
    assert_eq!(ms[1].description, "seed default data");
    assert_eq!(ms[1].sql, SEED_SQL);
    assert!(SCHEMA_SQL.contains("CREATE TABLE IF NOT EXISTS pharmacy_settings"));
    assert!(SEED_SQL.contains("INSERT OR IGNORE INTO gst_slabs"));
}

#[test]
fn pending_after_each_version() {
    let ms = migrations();
    assert_eq!(pending(0, &ms), vec![0, 1]);
    assert_eq!(pending(1, &ms), vec![1]);
    assert_eq!(pending(2, &ms), Vec::<u64>::new());
}

#[test]
fn rerun_after_applying_is_noop() {
    let ms = migrations();
    let v = applied_version(0, &ms);
    assert_eq!(v, 2);
    assert!(pending(v, &ms).is_empty());
    assert_eq!(applied_version(v, &ms), v);
}

#[test]
fn newer_ledger_keeps_its_version() {
    let ms = migrations();
    assert_eq!(applied_version(7, &ms), 7);
    assert!(pending(7, &ms).is_empty());
}
