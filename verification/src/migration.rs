//! One schema revision, and what it means for a list of revisions to be in
//! order.

use vstd::prelude::*;

verus! {

/// The direction in which a revision changes the schema.
#[derive(Clone, Copy, Debug, PartialEq, Eq, Structural)]
pub enum MigrationKind {
    /// Moves the schema forward.
    Up,
    /// Takes a forward revision back.
    Down,
}

/// One revision of the schema.
#[derive(Clone, Copy, Debug, PartialEq, Eq)]
pub struct Migration {
    /// The revision number; the runner applies revisions in ascending order.
    pub version: i64,
    /// A short name for the revision.
    pub description: &'static str,
    /// The statements that the runner executes as one unit.
    pub sql: &'static str,
    /// The direction of the revision.
    pub kind: MigrationKind,
}

/// A revision as a mathematical value.
pub struct MigrationView {
    pub version: int,
    pub description: Seq<char>,
    pub sql: Seq<char>,
    pub kind: MigrationKind,
}

impl View for Migration {
    type V = MigrationView;

    open spec fn view(&self) -> MigrationView {
        MigrationView {
            version: self.version as int,
            description: self.description@,
            sql: self.sql@,
            kind: self.kind,
        }
    }
}

/// The revisions of a list as mathematical values, in the list's order.
pub open spec fn views(migrations: Seq<Migration>) -> Seq<MigrationView> {
    migrations.map_values(|m: Migration| m@)
}

/// Every version is a positive number.
pub open spec fn versions_positive(revisions: Seq<MigrationView>) -> bool {
    forall|i: int| 0 <= i < revisions.len() ==> (#[trigger] revisions[i]).version >= 1
}

/// Each revision has a greater version than all that stand before it.
pub open spec fn versions_increase(revisions: Seq<MigrationView>) -> bool {
    forall|i: int, j: int|
        0 <= i < j < revisions.len() ==> (#[trigger] revisions[i]).version < (
        #[trigger] revisions[j]).version
}

/// No two places of the list hold the same version.
pub open spec fn versions_unique(revisions: Seq<MigrationView>) -> bool {
    forall|i: int, j: int|
        0 <= i < revisions.len() && 0 <= j < revisions.len() && i != j ==> (
        #[trigger] revisions[i]).version != (#[trigger] revisions[j]).version
}

/// Every revision moves the schema forward.
pub open spec fn forward_only(revisions: Seq<MigrationView>) -> bool {
    forall|i: int| 0 <= i < revisions.len() ==> (#[trigger] revisions[i]).kind == MigrationKind::Up
}

/// A list whose versions strictly increase holds no version twice.
pub proof fn lemma_increasing_versions_are_unique(revisions: Seq<MigrationView>)
    requires
        versions_increase(revisions),
    ensures
        versions_unique(revisions),
{
    assert forall|i: int, j: int|
        0 <= i < revisions.len() && 0 <= j < revisions.len() && i != j implies (
    #[trigger] revisions[i]).version != (#[trigger] revisions[j]).version by {
        if i < j {
            assert(revisions[i].version < revisions[j].version);
        } else {
            assert(revisions[j].version < revisions[i].version);
        }
    }
}

} // verus!
