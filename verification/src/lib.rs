//! Detection of Intel processor and platform features: the feature catalog, the
//! CPU model database, the decision logic of every probe, and the report.

pub mod text;
pub mod model;
pub mod catalog;
pub mod cli;
pub mod cpu_db;
pub mod probes;
pub mod report;
