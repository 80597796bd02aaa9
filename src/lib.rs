//! The runtime shared by code generators: the request loop's decisions, the generated
//! module tree, and the files that a tree turns into on disk.

pub mod casing;
pub mod config;
pub mod module;
pub mod protocol;
pub mod runtime;
