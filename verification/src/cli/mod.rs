//! The commands of the command line.
pub mod config;
pub mod render;
pub mod usage;
