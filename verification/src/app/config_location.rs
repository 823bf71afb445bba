//! Where an application says its configuration lives.

use crate::config::options::{OptionsView, TomlOptions};
use crate::paths::opt_path_text;
use std::path::PathBuf;
use vstd::prelude::*;

verus! {

/// An application's statement of where its configuration lives, built up
/// step by step and then turned into the options of the store.
#[derive(Debug, PartialEq, Eq)]
pub struct AppConfigLocation {
    /// The application's name.
    pub app_name: String,
    /// An explicit directory for the file, in place of the default one.
    pub config_dir: Option<PathBuf>,
    /// Whether the application reads a configuration file at all.
    pub enabled: bool,
}

impl View for AppConfigLocation {
    type V = OptionsView;

    open spec fn view(&self) -> OptionsView {
        OptionsView {
            app_name: self.app_name@,
            config_dir: opt_path_text(self.config_dir),
            enabled: self.enabled,
        }
    }
}

impl Clone for AppConfigLocation {
    fn clone(&self) -> (copy: AppConfigLocation)
        ensures
            copy@ == self@,
    {
        AppConfigLocation {
            app_name: self.app_name.clone(),
            config_dir: match &self.config_dir {
                Some(dir) => Some(dir.clone()),
                None => None,
            },
            enabled: self.enabled,
        }
    }
}

impl AppConfigLocation {
    /// The default location for the application of this name, enabled.
    pub fn new(app_name: &str) -> (location: AppConfigLocation)
        ensures
            location@ == (OptionsView { app_name: app_name@, config_dir: None, enabled: true }),
    {
        AppConfigLocation { app_name: app_name.to_owned(), config_dir: None, enabled: true }
    }

    /// The same location, with the configuration switched off.
    pub fn disabled(self) -> (location: AppConfigLocation)
        ensures
            location@ == (OptionsView { enabled: false, ..self@ }),
    {
        let mut location = self;
        location.enabled = false;
        location
    }

    /// The same location, with the file in `dir`.
    pub fn with_dir(self, dir: PathBuf) -> (location: AppConfigLocation)
        ensures
            location@ == (OptionsView { config_dir: opt_path_text(Some(dir)), ..self@ }),
    {
        let mut location = self;
        location.config_dir = Some(dir);
        location
    }

    /// The options of the store that say the same.
    pub fn to_toml_options(&self) -> (opts: TomlOptions)
        ensures
            opts@ == self@,
    {
        TomlOptions {
            app_name: self.app_name.clone(),
            config_dir: match &self.config_dir {
                Some(dir) => Some(dir.clone()),
                None => None,
            },
            enabled: self.enabled,
        }
    }
}

} // verus!
