//! Distributed execution: remote workers advertise their operating systems and
//! resources, and the registry authenticates, schedules and migrates tasks.
pub mod model;
pub mod registry;
pub mod remote;
pub mod transfer;
