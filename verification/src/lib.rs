//! Application bootstrap: configuration location, the configuration load
//! protocol, and coordination of shutdown and reload signals.

pub mod app;
pub mod cli;
pub mod config;
pub mod error;
pub mod paths;
pub mod signals;

pub use app::{AppConfigLocation, Context, Privilege};
pub use error::{AppError, ConfigError};
pub use signals::{Signal, SignalHandler};
