//! The command-line arguments the bootstrap knows about, as plain values.

use crate::paths::opt_path_text;
use std::path::PathBuf;
use vstd::prelude::*;

verus! {

/// Arguments that matter before the application starts.
#[derive(Debug, PartialEq, Eq)]
pub struct InitArgs {
    /// An explicit configuration file, which overrides every default.
    pub config: Option<PathBuf>,
}

/// Arguments handed on to the running application.
#[derive(Debug, Clone, Copy, PartialEq, Eq)]
pub struct RuntimeArgs {
    pub verbose: bool,
}

/// All arguments of one run.
#[derive(Debug, PartialEq, Eq)]
pub struct CliArgs {
    pub init: InitArgs,
    pub runtime: RuntimeArgs,
}

impl Clone for InitArgs {
    fn clone(&self) -> (copy: InitArgs)
        ensures
            opt_path_text(copy.config) == opt_path_text(self.config),
    {
        InitArgs { config: self.config_path() }
    }
}

impl Clone for CliArgs {
    fn clone(&self) -> (copy: CliArgs)
        ensures
            opt_path_text(copy.init.config) == opt_path_text(self.init.config),
            copy.runtime == self.runtime,
    {
        CliArgs { init: self.init.clone(), runtime: self.runtime }
    }
}

/// Anything that may name an explicit configuration file.
pub trait ConfigPath {
    /// The explicit configuration file, if one is named.
    fn config_path(&self) -> Option<PathBuf>;
}

impl ConfigPath for InitArgs {
    fn config_path(&self) -> (path: Option<PathBuf>)
        ensures
            opt_path_text(path) == opt_path_text(self.config),
    {
        match &self.config {
            Some(p) => Some(p.clone()),
            None => None,
        }
    }
}

impl ConfigPath for CliArgs {
    fn config_path(&self) -> (path: Option<PathBuf>)
        ensures
            opt_path_text(path) == opt_path_text(self.init.config),
    {
        self.init.config_path()
    }
}

} // verus!
