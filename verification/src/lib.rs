//! JSON configuration files, decided step by step.
//!
//! The crate holds the rules by which a configuration value is loaded from
//! and saved to a JSON file, and a helper that builds the paths of such
//! files. It touches no disk itself: a load or a save is a small protocol
//! that names, one at a time, the requests its driver has to carry out and
//! decides from each answer how to go on.

pub mod paths;
pub mod error;
pub mod builder;
pub mod load;
pub mod save;
pub mod laws;

pub use builder::ConfigPathBuilder;
pub use error::{ConfigError, ConfigErrorView};
