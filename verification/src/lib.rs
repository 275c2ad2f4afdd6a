//! Finds Python virtual environments below a directory, measures them and
//! decides, step by step, what a front end has to report or remove.
//!
//! The crate holds the decisions only. A front end walks the tree, asks the
//! operator and touches the disk; it hands every observation to [`scan::Scan`]
//! and carries out the action that comes back.

pub mod paths;
pub mod text;
pub mod sizing;
pub mod accounting;
pub mod report;
pub mod config;
pub mod bridge;
pub mod resolver;
pub mod protocol;
pub mod scan;
pub mod laws;
