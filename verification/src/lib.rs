//! Mirrors list-membership notifications as reader permissions on a set of
//! shared drives.
//!
//! The crate holds the decisions; whoever drives it performs the network
//! calls it asks for and hands the outcomes back.

pub mod json;
pub mod structures;
pub mod error;
pub mod targets;
pub mod options;
pub mod drive;
pub mod step;
pub mod hook;
pub mod laws;
