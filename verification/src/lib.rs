//! Core logic of a line-oriented log viewer: two table instances (a log table
//! over a backing sequence of text lines, and a fixed-size filter table) share
//! one engine that orders rows, tracks a selection keyed by physical row
//! index, consumes a one-shot scroll target, and classifies row render weight.
//! The drawing surface itself is an external collaborator and lives outside
//! this crate.
pub mod app;
pub mod engine;
pub mod filter;
pub mod log;
