//! Lifecycle of containerised challenge instances: the manifest's data, the
//! checks made when an instance is set up, the external invocations that build,
//! start, inspect and stop it, and the reading of their results.

pub mod command;
pub mod config;
pub mod manager;
pub mod text;

pub use command::{command_result, first_step, next_step, CommandOutcome, CommandSpec, Step};
pub use config::{Category, ChallengeDockerConfig};
pub use manager::{
    dot_env_read_error, join_path, manifest_parse_error, manifest_read_error,
    ChallengeDockerManager,
};
