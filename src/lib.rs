//! Correlates the artifacts of a package build with the packages and source
//! files that produced them, and assembles one SPDX bill of materials per
//! produced binary.

pub mod cargo_build;
pub mod checksum;
pub mod correlate;
pub mod document;
pub mod events;
pub mod format;
pub mod ident;
pub mod key_value;
pub mod listing;
pub mod output;
pub mod paths;
pub mod schema;
pub mod text;
