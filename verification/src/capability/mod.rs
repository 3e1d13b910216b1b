//! Universal capabilities: their contracts, the registry of versions and
//! providers, the operating-system adapters and the GUI test guard rails.
pub mod gui_test;
pub mod model;
pub mod registry;
pub mod adapters;
pub mod layer;
pub mod native;
pub mod windows_providers;
pub mod browser;
pub mod input_plans;
pub mod imaging;
pub mod processes;
pub mod discovery;
pub mod host_commands;
pub mod window_search;
pub mod document_text;
