//! State synchronization engine for a starred-repository manager.
//!
//! The library owns the canonical application state of a client that
//! browses the repositories a user has starred on a code-hosting
//! platform and removes stars in bulk.  It covers the domain model
//! (repositories, selection, sort configuration), the pagination and
//! batch-unstar protocol, and the classification of remote failures.
//! Network calls, persistence and rendering live outside the library;
//! they hand plain values in and take plain values back, and every
//! state transition in between is verified.

pub mod config;
pub mod github;
pub mod numfmt;
pub mod repository;
pub mod sort;
pub mod state;
