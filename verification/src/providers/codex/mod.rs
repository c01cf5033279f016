//! Codex: credentials, configuration, usage windows and the fetch of usage.
pub mod config;
pub mod credentials;
pub mod flow;
pub mod labels;
pub mod reset_credits;
pub mod response;
pub mod windows;
