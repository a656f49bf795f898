//! Fleet status collector: inspects a list of database hosts and reports,
//! for each, whether it is a primary or a standby, its replication timeline
//! identifier, and whether any standby is attached to it.
//!
//! This crate holds the collector's logic: parsing the host list, deciding
//! what each probe outcome contributes to the report, and formatting the
//! report's rows. Opening connections, running the status queries and all
//! other I/O live outside the library, which only ever sees their results
//! as plain values.

pub mod collect;
pub mod config;
pub mod hosts;
pub mod report;
pub mod status;
