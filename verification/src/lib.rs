//! Point-in-time snapshots of a host's resource state.
//!
//! A metric source hands over raw readings; this library normalises them,
//! ranks the process table by CPU usage and assembles one report.
//!
//! - [`source`]: what a metric source reports.
//! - [`collect`]: the collectors, from readings to records.
//! - [`usage`]: CPU usage values and their total order.
//! - [`rank`]: sorting the process table and selecting its top entries.
//! - [`record`] and [`report`]: the records and the snapshot report.
//! - [`capture`]: the order of a capture and its failure.

pub mod capture;
pub mod collect;
pub mod rank;
pub mod record;
pub mod report;
pub mod source;
pub mod usage;
