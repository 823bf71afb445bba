//! What an application is started with: the privilege it needs, where its
//! configuration lives, and the context it runs in.

pub mod config_location;
pub mod context;
pub mod privilege;

pub use config_location::AppConfigLocation;
pub use context::Context;
pub use privilege::{plan_startup, Privilege, Startup};
