//! Offline-first synchronisation between a local relational store and a remote
//! document store.
//!
//! The library decides; it neither reads a store nor sends a request. A
//! caller hands it rows and documents as plain values and performs what it
//! gets back: requests to send, rows to write, a checkpoint to store.
//!
//! - [`sync`] holds the engine: the upload of a row, the download of a page,
//!   the field mapper and its key tables, the cycle with its report, and the
//!   laws that hold of every cycle.
//! - [`config`] holds what is known of the two remote services: wire values,
//!   documents and queries, how a request is addressed and an answer read.
//! - [`methods`] and [`entities`] hold the records of the application and
//!   the rules of its commands, signing in among them.
//! - [`decimal`] and [`text`] hold the notation of integers and the handling
//!   of paths.

pub mod config;
pub mod decimal;
pub mod entities;
pub mod methods;
pub mod sync;
pub mod text;
