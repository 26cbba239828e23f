//! Verified core of a SQL Server activity monitor and its two log viewers.
pub mod text;
pub mod number;
pub mod model;
pub mod report;
pub mod poll;
pub mod monitor;
pub mod alert_viewer;
pub mod snapshot_viewer;
pub mod log_order;
pub mod text_laws;
pub mod alert_laws;
pub mod snapshot_laws;
pub mod detail_laws;
pub mod log_labels;
