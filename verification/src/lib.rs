//! Statistics over the column families of an embedded key-value store.
//!
//! A scan visits every record of every column family once, in the order in
//! which the store lists the families, and counts records, key bytes and value
//! bytes per family and in total. This crate holds the part of such a scan that
//! decides and computes: the counters, the text of every output line, and the
//! order in which lines appear. Reading the store and writing the lines is left
//! to the caller.

pub mod render;
pub mod scan;
pub mod stats;
pub mod store;
