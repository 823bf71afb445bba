//! What can go wrong while a configuration is located, written or read,
//! and the message each failure is reported with.

use crate::paths::{display, path_text, shown_text};
use std::path::PathBuf;
use vstd::prelude::*;
use vstd::std_specs::convert::FromSpecImpl;
use vstd::string::StringExecFns;

verus! {

/// A failure of the configuration store. The causes are kept as the text
/// that the failing operation reported.
#[derive(Debug, PartialEq, Eq)]
pub enum ConfigError {
    /// A filesystem operation failed.
    Io(String),
    /// The default configuration could not be turned into text.
    Serialize(String),
    /// No directory for the configuration could be determined, and no
    /// explicit path was given.
    ConfigDirNotFound,
    /// The file at `path` exists but does not parse.
    InvalidToml { path: PathBuf, source: String },
}

/// The mathematical value of a `ConfigError`.
pub enum ConfigErrorView {
    Io(Seq<char>),
    Serialize(Seq<char>),
    ConfigDirNotFound,
    InvalidToml { path: Seq<u8>, source: Seq<char> },
}

impl ConfigErrorView {
    /// The message a failure is reported with.
    pub open spec fn message(self) -> Seq<char> {
        match self {
            ConfigErrorView::Io(cause) => "filesystem error: "@ + cause,
            ConfigErrorView::Serialize(cause) => "failed to serialize default config: "@ + cause,
            ConfigErrorView::ConfigDirNotFound => "unable to determine configuration directory"@,
            ConfigErrorView::InvalidToml { path, source } => "invalid TOML in config file "@
                + shown_text(path) + "\n"@ + source,
        }
    }
}

impl View for ConfigError {
    type V = ConfigErrorView;

    open spec fn view(&self) -> ConfigErrorView {
        match *self {
            ConfigError::Io(cause) => ConfigErrorView::Io(cause@),
            ConfigError::Serialize(cause) => ConfigErrorView::Serialize(cause@),
            ConfigError::ConfigDirNotFound => ConfigErrorView::ConfigDirNotFound,
            ConfigError::InvalidToml { path, source } => ConfigErrorView::InvalidToml {
                path: path_text(path),
                source: source@,
            },
        }
    }
}

impl ConfigError {
    /// The message this failure is reported with.
    pub fn message(&self) -> (text: String)
        ensures
            text@ == self@.message(),
    {
        match self {
            ConfigError::Io(cause) => {
                let mut text = "filesystem error: ".to_owned();
                text.append(cause.as_str());
                text
            },
            ConfigError::Serialize(cause) => {
                let mut text = "failed to serialize default config: ".to_owned();
                text.append(cause.as_str());
                text
            },
            ConfigError::ConfigDirNotFound => {
                "unable to determine configuration directory".to_owned()
            },
            ConfigError::InvalidToml { path, source } => {
                let shown = display(path);
                let mut text = "invalid TOML in config file ".to_owned();
                text.append(shown.as_str());
                text.append("\n");
                text.append(source.as_str());
                text
            },
        }
    }
}

/// A failure of the application as a whole.
#[derive(Debug, PartialEq, Eq)]
pub enum AppError {
    /// The configuration store failed.
    Config(ConfigError),
    /// Anything else, as a message.
    Other(String),
}

/// The mathematical value of an `AppError`.
pub enum AppErrorView {
    Config(ConfigErrorView),
    Other(Seq<char>),
}

impl AppErrorView {
    /// The message a failure is reported with: that of the configuration
    /// failure it wraps, or its own text.
    pub open spec fn message(self) -> Seq<char> {
        match self {
            AppErrorView::Config(inner) => inner.message(),
            AppErrorView::Other(text) => text,
        }
    }
}

impl View for AppError {
    type V = AppErrorView;

    open spec fn view(&self) -> AppErrorView {
        match *self {
            AppError::Config(inner) => AppErrorView::Config(inner@),
            AppError::Other(text) => AppErrorView::Other(text@),
        }
    }
}

impl AppError {
    /// The message this failure is reported with.
    pub fn message(&self) -> (text: String)
        ensures
            text@ == self@.message(),
    {
        match self {
            AppError::Config(inner) => inner.message(),
            AppError::Other(text) => text.clone(),
        }
    }
}

impl From<ConfigError> for AppError {
    fn from(e: ConfigError) -> (wrapped: AppError) {
        AppError::Config(e)
    }
}

impl FromSpecImpl<ConfigError> for AppError {
    open spec fn obeys_from_spec() -> bool {
        true
    }

    open spec fn from_spec(e: ConfigError) -> AppError {
        AppError::Config(e)
    }
}

} // verus!
