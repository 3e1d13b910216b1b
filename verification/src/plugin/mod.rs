//! Plugins: manifests, their canonical encoding and checksum, and the registry
//! that installs, verifies, enables, executes, upgrades and removes them.
pub mod json;
pub mod model;
pub mod registry;
