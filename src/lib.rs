//! Point-in-time operational report for managed graph-database clusters:
//! metric resolution and report assembly, verified.

pub mod metric;
pub mod report;
pub mod timestamp;
