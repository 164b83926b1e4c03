//! VINdicate: looks a vehicle identification number up in national and
//! universal vehicle data sources and assembles one report.
//!
//! This crate holds what the lookup decides and computes, with its contracts:
//! VIN validation, the cache keys and lifetimes, what each source makes of an
//! answer, and how the report is assembled from the sources' outcomes (one
//! entry per source, their data merged in order, inspections newest first).
//! The HTTP server, the network requests and the cache connection live in the
//! server around it.
pub mod cache;
pub mod config;
pub mod error;
pub mod json;
pub mod lookup;
pub mod models;
pub mod report;
pub mod sources;
pub mod text;
pub mod vin;
