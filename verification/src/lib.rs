//! The schema-migration registry of the NeuroNotes note store.
//!
//! The store is an embedded SQLite database whose schema evolves through an
//! ordered, forward-only list of revisions. This crate holds that list and the
//! names of the databases that receive it; a migration runner outside this
//! crate applies the pending revisions when the application starts.

pub mod checkpoint;
pub mod database;
pub mod migration;
pub mod registry;
