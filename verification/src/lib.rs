//! A disk-space auditor's core: classification of build artifacts in a
//! filesystem snapshot, size accounting, scan orchestration records, and
//! snapshot comparison.

pub mod strutil;
pub mod detector;
pub mod fstree;
pub mod classify;
pub mod manifest;
pub mod projects;
pub mod platform;
pub mod cli;
pub mod config;
pub mod scan;
pub mod clean;
pub mod docker;
pub mod xcode;
pub mod caches;
pub mod store;
pub mod snapshot;
pub mod report;
