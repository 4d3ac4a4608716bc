//! Settings shared by everything that one runtime loads and runs.

use crate::actor::Config;
use crate::capability::HandlerBuilder;
use vstd::prelude::*;

verus! {

/// The settings of a runtime: how actors are loaded, and the handlers that a
/// fresh instance starts with.
pub struct Runtime {
    config: Config,
    handler: HandlerBuilder,
}

impl Runtime {
    /// The configuration that actors are loaded under.
    pub closed spec fn config(&self) -> Config {
        self.config
    }

    /// The handlers that a fresh or reset instance holds.
    pub closed spec fn handler(&self) -> HandlerBuilder {
        self.handler
    }

    /// A runtime that loads actors under `config` and gives each fresh
    /// instance the handlers of `handler`.
    pub fn new(config: Config, handler: HandlerBuilder) -> (rt: Self)
        ensures
            rt.config() == config,
            rt.handler() == handler,
    {
        Runtime { config, handler }
    }

    /// The configuration that actors are loaded under.
    pub fn actor_config(&self) -> (config: &Config)
        ensures
            *config == self.config(),
    {
        &self.config
    }

    /// The handlers that a fresh or reset instance holds.
    pub fn default_handler(&self) -> (handler: &HandlerBuilder)
        ensures
            *handler == self.handler(),
    {
        &self.handler
    }
}

impl Clone for Runtime {
    fn clone(&self) -> (copy: Self)
        ensures
            copy == *self,
    {
        Runtime { config: self.config, handler: self.handler.clone() }
    }
}

impl Default for Runtime {
    fn default() -> (rt: Self)
        ensures
            rt.config() == (Config { require_signature: false }),
            rt.handler() == HandlerBuilder::empty(),
    {
        Runtime { config: Config { require_signature: false }, handler: HandlerBuilder::new() }
    }
}

} // verus!
