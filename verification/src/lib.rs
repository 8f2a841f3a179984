//! The tuning parameters of a robot's drive controllers, and the rules by
//! which they are loaded, overridden and persisted.
//!
//! The crate holds the decisions only. Finding the configuration directory,
//! touching the file system, converting between text and records and
//! printing are the caller's work: a [`Session`] tells the caller what to do
//! next and is told what came of it. What the operations amount to is said
//! in [`store`], of a model of the platform and its file.

pub mod config;
pub mod error;
pub mod listing;
pub mod session;
pub mod single;
pub mod store;

pub use config::{Config, Overrides};
pub use error::ConfigError;
pub use listing::{Line, Value};
pub use session::{
    config_command, read_config, save_config, Reply, Request, Session, CONFIG_FILE,
};
pub use single::Single;
