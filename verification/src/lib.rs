//! Verified core of the Cognyx runtime: worker scheduling, plugin lifecycle,
//! resource quotas, network policy, capability registry and runtime models.

pub mod assoc;
pub mod text;
pub mod sums;
pub mod resources;
pub mod network;
pub mod capability;
pub mod storage;
pub mod container;
pub mod macos;
pub mod windows;
pub mod guest;
pub mod events;
pub mod execution;
pub mod digest;
pub mod tables;
pub mod worker;
pub mod plugin;
pub mod bus;
pub mod manager;
pub mod virtualization;
