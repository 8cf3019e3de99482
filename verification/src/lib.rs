//! Verified core of a compiler-driver that records which functions a crate
//! defines and calls: argument parsing, span cleaning, the call-graph and
//! foreign-call inventories, the raw-pointer constructor lint, and the
//! configuration decisions around them.

pub mod args;
pub mod span;
pub mod lint;
pub mod keyed;
pub mod data;
pub mod call;
pub mod inventory;
pub mod graph;
pub mod manifest;
pub mod config;
