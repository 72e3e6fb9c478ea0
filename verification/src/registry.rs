//! The schema revisions of the note store, in the order in which they apply.
//!
//! Each script is kept byte for byte, leading and trailing whitespace
//! included: the runner records a checksum of every script it applies, and a
//! database that was migrated with one text refuses another.

use vstd::prelude::*;
use crate::migration::{Migration, MigrationKind, MigrationView};
use crate::migration::{forward_only, versions_increase, versions_positive, versions_unique, views};
use crate::migration::lemma_increasing_versions_are_unique;
use crate::checkpoint::{applied, lemma_resuming_converges, marker_after, pending};

verus! {

/// The script of revision 1: the six base tables. Each statement creates its
/// table only if it is absent, so the script can run again on a database that
/// already holds some of them.
pub const CREATE_INITIAL_TABLES: &'static str = r#"
                CREATE TABLE IF NOT EXISTS workspaces (id TEXT PRIMARY KEY, name TEXT NOT NULL, "order" INTEGER NOT NULL DEFAULT 0);
                CREATE TABLE IF NOT EXISTS folders (id TEXT PRIMARY KEY, name TEXT NOT NULL, workspace_id TEXT NOT NULL, "order" INTEGER NOT NULL DEFAULT 0);
                CREATE TABLE IF NOT EXISTS notes (id TEXT PRIMARY KEY, title TEXT NOT NULL, content_html TEXT, updated_at INTEGER NOT NULL, workspace_id TEXT NOT NULL, folder_id TEXT, "order" INTEGER NOT NULL DEFAULT 0, type TEXT NOT NULL DEFAULT 'text', spreadsheet TEXT);
                CREATE TABLE IF NOT EXISTS calendarEvents (id TEXT PRIMARY KEY, date TEXT NOT NULL, title TEXT NOT NULL, time TEXT, workspace_id TEXT NOT NULL);
                CREATE TABLE IF NOT EXISTS kanban (workspace_id TEXT PRIMARY KEY, columns TEXT NOT NULL);
                CREATE TABLE IF NOT EXISTS settings (key TEXT PRIMARY KEY, value TEXT);
            "#;

/// The script of revision 2: the recurrence columns of `calendarEvents`.
pub const ADD_CALENDAR_REPEAT_FIELDS: &'static str = r#"
                ALTER TABLE calendarEvents ADD COLUMN repeat TEXT;
                ALTER TABLE calendarEvents ADD COLUMN repeat_on TEXT;
                ALTER TABLE calendarEvents ADD COLUMN repeat_end TEXT;
                ALTER TABLE calendarEvents ADD COLUMN exceptions TEXT;
            "#;

/// The script of revision 3: the colour column of `calendarEvents`.
pub const ADD_CALENDAR_EVENT_COLOR: &'static str = r#"
                ALTER TABLE calendarEvents ADD COLUMN color TEXT;
            "#;

/// The revisions of the schema, oldest first.
///
/// A revision that has shipped is never edited or removed: the runner keeps a
/// checksum of every script it has applied and refuses a list in which one of
/// them has changed. The list only grows, at its end.
pub open spec fn registry() -> Seq<MigrationView> {
    seq![
        MigrationView {
            version: 1,
            description: "create_initial_tables"@,
            sql: CREATE_INITIAL_TABLES@,
            kind: MigrationKind::Up,
        },
        MigrationView {
            version: 2,
            description: "add_calendar_repeat_fields"@,
            sql: ADD_CALENDAR_REPEAT_FIELDS@,
            kind: MigrationKind::Up,
        },
        MigrationView {
            version: 3,
            description: "add_calendar_event_color"@,
            sql: ADD_CALENDAR_EVENT_COLOR@,
            kind: MigrationKind::Up,
        },
    ]
}

/// Returns the revisions of the schema, oldest first.
///
/// Every call returns the same list. The versions are positive and strictly
/// increasing, so no two revisions share one, and every revision moves the
/// schema forward.
pub fn get_migrations() -> (migrations: Vec<Migration>)
    ensures
        views(migrations@) == registry(),
        versions_positive(views(migrations@)),
        versions_increase(views(migrations@)),
        versions_unique(views(migrations@)),
        forward_only(views(migrations@)),
{
    let migrations = vec![
        Migration {
            version: 1,
            description: "create_initial_tables",
            sql: CREATE_INITIAL_TABLES,
            kind: MigrationKind::Up,
        },
        Migration {
            version: 2,
            description: "add_calendar_repeat_fields",
            sql: ADD_CALENDAR_REPEAT_FIELDS,
            kind: MigrationKind::Up,
        },
        Migration {
            version: 3,
            description: "add_calendar_event_color",
            sql: ADD_CALENDAR_EVENT_COLOR,
            kind: MigrationKind::Up,
        },
    ];
    proof {
        lemma_registry_is_ordered();
    }
    migrations
}

/// The registry is in order: its versions are positive and strictly
/// increasing, none occurs twice, and every revision moves the schema forward.
pub proof fn lemma_registry_is_ordered()
    ensures
        versions_positive(registry()),
        versions_increase(registry()),
        versions_unique(registry()),
        forward_only(registry()),
{
    lemma_increasing_versions_are_unique(registry());
}

/// A database that holds the first `count` revisions of the registry and then
/// receives the pending ones ends in the state of a fresh database that
/// received all of them, whatever the engine makes of each revision.
pub proof fn lemma_registry_converges<S>(
    effect: spec_fn(S, MigrationView) -> S,
    fresh: S,
    count: int,
)
    requires
        0 <= count <= registry().len(),
    ensures
        applied(
            effect,
            applied(effect, fresh, registry().take(count)),
            pending(registry(), marker_after(registry(), count)),
        ) == applied(effect, fresh, registry()),
{
    lemma_registry_is_ordered();
    lemma_resuming_converges(effect, fresh, registry(), count);
}

} // verus!
