use vstd::prelude::*;

pub mod binary64;
pub mod bridge;
pub mod cli;
pub mod desktop;
pub mod http;
pub mod json;
pub mod provider;
pub mod provider_factory;
pub mod providers;
pub mod snapshot;
pub mod text;
pub mod timestamp;

verus! {

}
