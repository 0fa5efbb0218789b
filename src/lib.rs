//! Configuration and setup of the process-wide logger: level policy,
//! per-module overrides, color resolution, default values, a builder that
//! resolves them, and the slot that installs or reconfigures the logger.

mod backend;
pub mod builder;
pub mod color;
pub mod config;
pub mod default;
pub mod defaults;
pub mod filter;
pub mod level;
pub mod logger;
pub mod naming;
pub mod text;

pub use builder::Builder;
pub use config::Config;
pub use logger::{is_set_up, setup};
pub use lum_libs::log;
