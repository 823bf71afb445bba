//! What a running application holds: its configuration, its arguments, its
//! handle on the signals, and what it takes to read the configuration
//! again.

use crate::cli::RuntimeArgs;
use crate::config::loader::{begins, reload, Loader};
use crate::config::options::{OptionsView, TomlOptions};
use crate::config::path::resolved_text;
use crate::error::{AppError, AppErrorView, ConfigError};
use crate::paths::opt_path_text;
use std::path::PathBuf;
use vstd::prelude::*;

verus! {

/// The context of one run. `C` is the application's configuration and `S`
/// its handle on the signals. The explicit path and the options that the
/// run began with are captured here and cannot be changed afterwards, so a
/// reload reads what the first load read.
#[derive(Debug)]
pub struct Context<C, S> {
    /// The configuration in force.
    pub config: C,
    /// The arguments handed on to the application.
    pub runtime: RuntimeArgs,
    /// The application's handle on shutdown and reload.
    pub signals: S,
    config_path: Option<PathBuf>,
    config_opts: TomlOptions,
}

/// The mathematical value of a `Context`.
pub struct ContextView<C, S> {
    /// The configuration in force.
    pub config: C,
    /// The arguments handed on to the application.
    pub runtime: RuntimeArgs,
    /// The application's handle on shutdown and reload.
    pub signals: S,
    /// The text of the explicit path that was captured, if there was one.
    pub path: Option<Seq<u8>>,
    /// The options that were captured.
    pub opts: OptionsView,
}

impl<C, S> View for Context<C, S> {
    type V = ContextView<C, S>;

    closed spec fn view(&self) -> ContextView<C, S> {
        ContextView {
            config: self.config,
            runtime: self.runtime,
            signals: self.signals,
            path: opt_path_text(self.config_path),
            opts: self.config_opts@,
        }
    }
}

impl<C: Clone, S: Clone> Clone for Context<C, S> {
    /// A copy of the context: the configuration and the handle as their
    /// own `clone` makes them, everything else the same.
    fn clone(&self) -> (copy: Context<C, S>)
        ensures
            cloned(self@.config, copy@.config),
            cloned(self@.signals, copy@.signals),
            copy@.runtime == self@.runtime,
            copy@.path == self@.path,
            copy@.opts == self@.opts,
    {
        Context {
            config: self.config.clone(),
            runtime: self.runtime,
            signals: self.signals.clone(),
            config_path: match &self.config_path {
                Some(path) => Some(path.clone()),
                None => None,
            },
            config_opts: self.config_opts.clone(),
        }
    }
}

impl<C, S> Context<C, S> {
    /// The context of a run that begins with these values.
    pub fn new(
        config: C,
        runtime: RuntimeArgs,
        signals: S,
        config_path: Option<PathBuf>,
        config_opts: TomlOptions,
    ) -> (ctx: Context<C, S>)
        ensures
            ctx@ == (ContextView {
                config,
                runtime,
                signals,
                path: opt_path_text(config_path),
                opts: config_opts@,
            }),
    {
        Context { config, runtime, signals, config_path, config_opts }
    }

    /// The configuration in force.
    pub fn config(&self) -> (config: &C)
        ensures
            *config == self@.config,
    {
        &self.config
    }

    /// The arguments handed on to the application.
    pub fn runtime(&self) -> (runtime: &RuntimeArgs)
        ensures
            *runtime == self@.runtime,
    {
        &self.runtime
    }

    /// The application's handle on shutdown and reload.
    pub fn signals(&self) -> (signals: &S)
        ensures
            *signals == self@.signals,
    {
        &self.signals
    }

    /// Whether this run reads a configuration file at all.
    pub fn config_enabled(&self) -> (enabled: bool)
        ensures
            enabled == self@.opts.enabled,
    {
        self.config_opts.enabled
    }

    /// Begins to read the configuration again, from the path and options
    /// that were captured. Nothing is begun where the configuration is
    /// switched off: the caller then keeps what it has.
    pub fn begin_reload(&self) -> (begun: Option<Result<Loader<C>, ConfigError>>)
        ensures
            begun is Some <==> self@.opts.enabled,
            self@.opts.enabled && (self@.path is Some || self@.opts.config_dir is Some) ==> begins(
                begun->Some_0,
                resolved_text(self@.path, self@.opts, None),
            ),
            self@.opts.enabled ==> exists|home: Option<Seq<u8>>|
                begins(begun->Some_0, #[trigger] resolved_text(self@.path, self@.opts, home)),
    {
        reload(&self.config_path, &self.config_opts)
    }

    /// Takes in how a reload ended. A configuration that was read replaces
    /// the one in force as a whole; a failure leaves the one in force and
    /// is handed on. What was captured stays as it was either way.
    pub fn finish_reload(&mut self, outcome: Result<C, ConfigError>) -> (done: Result<(), AppError>)
        ensures
            match outcome {
                Ok(config) => done is Ok && final(self)@ == (ContextView { config, ..old(self)@ }),
                Err(error) => done is Err && done->Err_0@ == AppErrorView::Config(error@)
                    && final(self)@ == old(self)@,
            },
    {
        match outcome {
            Ok(config) => {
                self.config = config;
                Ok(())
            },
            Err(error) => Err(AppError::Config(error)),
        }
    }
}

} // verus!
