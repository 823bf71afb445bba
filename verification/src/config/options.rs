//! The options from which the default location of the file is derived.

use crate::paths::opt_path_text;
use std::path::PathBuf;
use vstd::prelude::*;

verus! {

/// Where an application keeps its configuration, and whether it has one.
#[derive(Debug, PartialEq, Eq)]
pub struct TomlOptions {
    /// The application's name, after which its directory is named.
    pub app_name: String,
    /// An explicit directory for the file, in place of the default one.
    pub config_dir: Option<PathBuf>,
    /// Whether the application reads a configuration file at all.
    pub enabled: bool,
}

/// The mathematical value of a `TomlOptions`.
pub struct OptionsView {
    pub app_name: Seq<char>,
    pub config_dir: Option<Seq<u8>>,
    pub enabled: bool,
}

impl View for TomlOptions {
    type V = OptionsView;

    open spec fn view(&self) -> OptionsView {
        OptionsView {
            app_name: self.app_name@,
            config_dir: opt_path_text(self.config_dir),
            enabled: self.enabled,
        }
    }
}

impl Clone for TomlOptions {
    fn clone(&self) -> (copy: TomlOptions)
        ensures
            copy@ == self@,
    {
        TomlOptions {
            app_name: self.app_name.clone(),
            config_dir: match &self.config_dir {
                Some(dir) => Some(dir.clone()),
                None => None,
            },
            enabled: self.enabled,
        }
    }
}

impl Default for TomlOptions {
    /// An unnamed application with the default location, enabled.
    fn default() -> (opts: TomlOptions)
        ensures
            opts@ == (OptionsView {
                app_name: "rust_unnamed_app"@,
                config_dir: None,
                enabled: true,
            }),
    {
        TomlOptions { app_name: "rust_unnamed_app".to_owned(), config_dir: None, enabled: true }
    }
}

} // verus!
