//! The registry and the database names, checked on their values.

use neuronotes_db::database::{database_registrations, Database, Registration, SCHEME};
use neuronotes_db::migration::{Migration, MigrationKind};
use neuronotes_db::registry::{
    get_migrations, ADD_CALENDAR_EVENT_COLOR, ADD_CALENDAR_REPEAT_FIELDS, CREATE_INITIAL_TABLES,
};
use std::borrow::Cow;
use std::str::FromStr;

const EXPECTED_CREATE_INITIAL_TABLES: &str = r#"
                CREATE TABLE IF NOT EXISTS workspaces (id TEXT PRIMARY KEY, name TEXT NOT NULL, "order" INTEGER NOT NULL DEFAULT 0);
                CREATE TABLE IF NOT EXISTS folders (id TEXT PRIMARY KEY, name TEXT NOT NULL, workspace_id TEXT NOT NULL, "order" INTEGER NOT NULL DEFAULT 0);
                CREATE TABLE IF NOT EXISTS notes (id TEXT PRIMARY KEY, title TEXT NOT NULL, content_html TEXT, updated_at INTEGER NOT NULL, workspace_id TEXT NOT NULL, folder_id TEXT, "order" INTEGER NOT NULL DEFAULT 0, type TEXT NOT NULL DEFAULT 'text', spreadsheet TEXT);
                CREATE TABLE IF NOT EXISTS calendarEvents (id TEXT PRIMARY KEY, date TEXT NOT NULL, title TEXT NOT NULL, time TEXT, workspace_id TEXT NOT NULL);
                CREATE TABLE IF NOT EXISTS kanban (workspace_id TEXT PRIMARY KEY, columns TEXT NOT NULL);
                CREATE TABLE IF NOT EXISTS settings (key TEXT PRIMARY KEY, value TEXT);
            "#;

const EXPECTED_ADD_CALENDAR_REPEAT_FIELDS: &str = r#"
                ALTER TABLE calendarEvents ADD COLUMN repeat TEXT;
                ALTER TABLE calendarEvents ADD COLUMN repeat_on TEXT;
                ALTER TABLE calendarEvents ADD COLUMN repeat_end TEXT;
                ALTER TABLE calendarEvents ADD COLUMN exceptions TEXT;
            "#;

const EXPECTED_ADD_CALENDAR_EVENT_COLOR: &str = r#"
                ALTER TABLE calendarEvents ADD COLUMN color TEXT;
            "#;

fn checksum(migration: &Migration) -> String {
    let resolved = sqlx::migrate::Migration::new(
        migration.version,
        Cow::Borrowed(migration.description),
        sqlx::migrate::MigrationType::ReversibleUp,
        Cow::Borrowed(migration.sql),
        false,
    );
    let mut hex = String::new();
    for byte in resolved.checksum.iter() {
        hex.push_str(&format!("{:02x}", byte));
    }
    hex
}

#[test]
fn registry_holds_three_revisions_in_order() {
    let migrations = get_migrations();
    assert_eq!(migrations.len(), 3);
    assert_eq!(
        migrations[0],
        Migration {
            version: 1,
            description: "create_initial_tables",
            sql: EXPECTED_CREATE_INITIAL_TABLES,
            kind: MigrationKind::Up,
        }
    );
    assert_eq!(
        migrations[1],
        Migration {
            version: 2,
            description: "add_calendar_repeat_fields",
            sql: EXPECTED_ADD_CALENDAR_REPEAT_FIELDS,
            kind: MigrationKind::Up,
        }
    );
    assert_eq!(
        migrations[2],
        Migration {
            version: 3,
            description: "add_calendar_event_color",
            sql: EXPECTED_ADD_CALENDAR_EVENT_COLOR,
            kind: MigrationKind::Up,
        }
    );
}

#[test]
fn registry_starts_at_version_one() {
    assert_eq!(get_migrations()[0].version, 1);
}

#[test]
fn scripts_are_kept_byte_for_byte() {
    assert_eq!(CREATE_INITIAL_TABLES, EXPECTED_CREATE_INITIAL_TABLES);
    assert_eq!(ADD_CALENDAR_REPEAT_FIELDS, EXPECTED_ADD_CALENDAR_REPEAT_FIELDS);
    assert_eq!(ADD_CALENDAR_EVENT_COLOR, EXPECTED_ADD_CALENDAR_EVENT_COLOR);
    assert_eq!(CREATE_INITIAL_TABLES.len(), 933);
    assert_eq!(ADD_CALENDAR_REPEAT_FIELDS.len(), 292);
    assert_eq!(ADD_CALENDAR_EVENT_COLOR.len(), 79);
    assert!(CREATE_INITIAL_TABLES.starts_with("\n                CREATE TABLE"));
    assert!(CREATE_INITIAL_TABLES.ends_with(";\n            "));
}

#[test]
fn script_checksums_are_those_of_deployed_databases() {
    let migrations = get_migrations();
    assert_eq!(
        checksum(&migrations[0]),
        "029e247311756509188705394eb8eb785e6fa84c5e2d8f30a9665828ada6fc68289c85205b18d0c5af217b7641adafb3"
    );
    assert_eq!(
        checksum(&migrations[1]),
        "cef5bc07e4ff6fdaa3856bd02d15b5712dd3382226a667a53114b744f5cc06358b2330339f15852b239b247702fd1903"
    );
    assert_eq!(
        checksum(&migrations[2]),
        "9591dd9ebb50872ff67d2b632086aedf0ba2764250d1f02f051bea7f72ad90dfa9e359da31ee7c09e086edfb71130dac"
    );
}

#[test]
fn versions_strictly_increase() {
    let migrations = get_migrations();
    for pair in migrations.windows(2) {
        assert!(pair[0].version < pair[1].version);
    }
}

#[test]
fn versions_are_positive_and_unique() {
    let migrations = get_migrations();
    for (i, a) in migrations.iter().enumerate() {
        assert!(a.version >= 1);
        for (j, b) in migrations.iter().enumerate() {
            if i != j {
                assert_ne!(a.version, b.version);
            }
        }
    }
}

#[test]
fn every_revision_moves_forward() {
    for migration in get_migrations() {
        assert_eq!(migration.kind, MigrationKind::Up);
    }
}

#[test]
fn repeated_calls_return_the_same_list() {
    assert_eq!(get_migrations(), get_migrations());
}

#[test]
fn database_identifiers_are_fixed() {
    assert_eq!(Database::Production.identifier(), "sqlite:neuronotes.db");
    assert_eq!(Database::Development.identifier(), "sqlite:neuronotes_dev.db");
}

#[test]
fn database_identifiers_carry_the_sqlite_scheme() {
    assert_eq!(SCHEME, "sqlite:");
    assert_eq!(Database::Production.identifier().strip_prefix(SCHEME), Some("neuronotes.db"));
    assert_eq!(Database::Development.identifier().strip_prefix(SCHEME), Some("neuronotes_dev.db"));
}

#[test]
fn production_and_development_never_share_a_file() {
    let production = Database::Production.identifier();
    let development = Database::Development.identifier();
    assert_ne!(production, development);
    let production_file = sqlx::sqlite::SqliteConnectOptions::from_str(production)
        .unwrap()
        .get_filename()
        .to_path_buf();
    let development_file = sqlx::sqlite::SqliteConnectOptions::from_str(development)
        .unwrap()
        .get_filename()
        .to_path_buf();
    assert_eq!(production_file, std::path::PathBuf::from("neuronotes.db"));
    assert_eq!(development_file, std::path::PathBuf::from("neuronotes_dev.db"));
    assert_ne!(production_file, development_file);
    let directory = std::path::Path::new("/data/app");
    assert_ne!(directory.join(&production_file), directory.join(&development_file));
}

#[test]
fn both_databases_are_registered_with_the_same_revisions() {
    let registrations = database_registrations();
    assert_eq!(
        registrations,
        vec![
            Registration { identifier: "sqlite:neuronotes.db", migrations: get_migrations() },
            Registration { identifier: "sqlite:neuronotes_dev.db", migrations: get_migrations() },
        ]
    );
    assert_eq!(registrations[0].migrations, registrations[1].migrations);
}
