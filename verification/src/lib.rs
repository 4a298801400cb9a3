//! Verified core of the pagetally analytics server: payload validation,
//! configuration parsing, admin-token checks and the decisions behind the
//! ingest and stats endpoints. The HTTP, database and clock plumbing lives in
//! `app/`, which feeds plain values in and acts on the decisions made here.
pub mod status;
pub mod text;
pub mod types;
pub mod auth;
pub mod config;
pub mod stats;
pub mod ingest;
pub mod policy;
