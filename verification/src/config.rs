//! The configuration store: where the file lives, and the protocol by
//! which it is created, read and read again.

pub mod disk;
pub mod laws;
pub mod loader;
pub mod options;
pub mod path;
pub mod writer;

pub use loader::{
    load, reload, Loader, LoaderView, Phase, PhaseView, Reply, ReplyView, Request, RequestView,
};
pub use options::{OptionsView, TomlOptions};
pub use path::{resolve_path, resolve_path_from};
pub use writer::{write_default, Writer};
