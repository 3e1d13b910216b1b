//! Virtual machines: their configuration and lifecycle, the in-memory and KVM
//! backends, and the QEMU command line.
pub mod types;

pub mod backend;
