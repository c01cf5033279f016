//! The providers whose logic lives in this library.
pub mod aihubmix;
pub mod bai;
pub mod cache;
pub mod codex;
pub mod geminiapi;
pub mod geminiapps;
pub mod orcarouter;
