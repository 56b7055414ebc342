//! Target environments and endpoint overrides for a cluster test run.
pub mod config;
pub mod environment;

pub use config::ClusterTestOpt;
pub use environment::{env_name, parses_as, Env};
