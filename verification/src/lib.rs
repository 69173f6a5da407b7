//! Hardware and operating-system facts for display in a desktop client.
//!
//! The platform's management interface answers structured queries with
//! records of tagged values. This library turns such answers into plain
//! domain fields, substitutes fixed placeholders for whatever an answer
//! lacks, and falls back to the live counters of a `sysinfo::System` where
//! the management interface reports no memory size.

pub mod decimal;
pub mod extract;
pub mod laws;
pub mod record;
pub mod secondary;
pub mod snapshot;
