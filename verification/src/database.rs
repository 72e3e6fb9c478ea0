//! The databases of the note store, and what is registered for each of them.

use vstd::prelude::*;
use crate::migration::{views, Migration, MigrationView};
use crate::registry::{get_migrations, registry};

verus! {

/// The scheme with which the identifier of an SQLite database begins.
pub const SCHEME: &'static str = "sqlite:";

/// A database of the note store. Each has its own file, and the runner keeps
/// for each its own record of the revisions it has applied.
#[derive(Clone, Copy, Debug, PartialEq, Eq, Structural)]
pub enum Database {
    /// The database of the released application.
    Production,
    /// The database that development builds work on.
    Development,
}

impl Database {
    /// The name of the database's file, relative to the directory in which the
    /// application keeps its data.
    pub open spec fn spec_file_name(self) -> Seq<char> {
        match self {
            Database::Production => "neuronotes.db"@,
            Database::Development => "neuronotes_dev.db"@,
        }
    }

    /// The identifier under which the database is registered: the scheme, then
    /// the file name.
    pub open spec fn spec_identifier(self) -> Seq<char> {
        SCHEME@ + self.spec_file_name()
    }

    /// Returns the identifier under which the database is registered.
    pub fn identifier(self) -> (identifier: &'static str)
        ensures
            identifier@ == self.spec_identifier(),
    {
        proof {
            reveal_strlit("sqlite:");
            reveal_strlit("neuronotes.db");
            reveal_strlit("neuronotes_dev.db");
            reveal_strlit("sqlite:neuronotes.db");
            reveal_strlit("sqlite:neuronotes_dev.db");
        }
        match self {
            Database::Production => "sqlite:neuronotes.db",
            Database::Development => "sqlite:neuronotes_dev.db",
        }
    }
}

/// What the runner is given for one database: the identifier, and the
/// revisions that bring a database of that name up to date.
#[derive(Clone, Debug, PartialEq, Eq)]
pub struct Registration {
    /// The identifier of the database.
    pub identifier: &'static str,
    /// The revisions of its schema, oldest first.
    pub migrations: Vec<Migration>,
}

/// A registration as a mathematical value.
pub struct RegistrationView {
    pub identifier: Seq<char>,
    pub revisions: Seq<MigrationView>,
}

impl View for Registration {
    type V = RegistrationView;

    open spec fn view(&self) -> RegistrationView {
        RegistrationView { identifier: self.identifier@, revisions: views(self.migrations@) }
    }
}

/// The registration of `database`: its identifier with the full registry.
pub open spec fn registration_of(database: Database) -> RegistrationView {
    RegistrationView { identifier: database.spec_identifier(), revisions: registry() }
}

/// Returns what the application registers with the runner when it starts: the
/// production database, then the development database, each with the same
/// revisions.
pub fn database_registrations() -> (registrations: Vec<Registration>)
    ensures
        registrations@.len() == 2,
        registrations[0]@ == registration_of(Database::Production),
        registrations[1]@ == registration_of(Database::Development),
{
    vec![
        Registration {
            identifier: Database::Production.identifier(),
            migrations: get_migrations(),
        },
        Registration {
            identifier: Database::Development.identifier(),
            migrations: get_migrations(),
        },
    ]
}

/// Two different databases never share a file: their file names differ, so do
/// their identifiers, and so do the paths of their files inside any one
/// directory.
pub proof fn lemma_databases_use_distinct_files(a: Database, b: Database, directory: Seq<char>)
    requires
        a != b,
    ensures
        a.spec_file_name() != b.spec_file_name(),
        a.spec_identifier() != b.spec_identifier(),
        directory + a.spec_file_name() != directory + b.spec_file_name(),
{
    // The two file names differ in length, and a common prefix keeps that
    // difference.
    reveal_strlit("neuronotes.db");
    reveal_strlit("neuronotes_dev.db");
    assert(a.spec_file_name().len() != b.spec_file_name().len());
    assert(a.spec_identifier().len() != b.spec_identifier().len());
    assert((directory + a.spec_file_name()).len() != (directory + b.spec_file_name()).len());
}

} // verus!
