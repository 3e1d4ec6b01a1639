//! Merging a base application package with its update package into one
//! patched package: title keys, content units, package handles, temporary
//! directories and the sequencing of the external tools.

pub mod error;
pub mod hexfmt;
pub mod invariants;
pub mod patch;
pub mod path;
pub mod report;
pub mod rom;
pub mod scan;
pub mod selection;
pub mod text;
pub mod ticket;
pub mod tool;
pub mod utils;
