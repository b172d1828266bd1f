//! Construction of the relay object.

use vstd::prelude::*;

use crate::{HandlerCallbacks, InnerHandlers, RelayConfig, SSLRelay};

verus! {

impl<H: HandlerCallbacks + Sync + Send + Clone + 'static> SSLRelay<H> {
    /// The configuration this relay was built with.
    pub closed spec fn spec_config(&self) -> RelayConfig {
        self.config
    }

    /// The handler this relay was built with, if it has not been taken.
    pub closed spec fn spec_handler(&self) -> Option<H> {
        match &self.handlers {
            Some(ih) => Some(ih.cb),
            None => None,
        }
    }

    /// Creates a new relay from a handler and a configuration.
    pub fn new(handlers: H, config: RelayConfig) -> (r: Self)
        ensures
            r.spec_config() == config,
            r.spec_handler() == Some(handlers),
    {
        SSLRelay { config, handlers: Some(InnerHandlers { cb: handlers }) }
    }

    /// The configuration, for the accept loop in the unverified shell.
    pub fn config(&self) -> (c: &RelayConfig)
        ensures
            *c == self.spec_config(),
    {
        &self.config
    }

    /// A clone of the handler, for the accept loop in the unverified
    /// shell. Nothing is known of what a user handler's clone returns,
    /// so only presence is stated.
    pub fn handler(&self) -> (h: Option<H>)
        ensures
            h is Some <==> self.spec_handler() is Some,
    {
        match &self.handlers {
            Some(ih) => Some(ih.cb.clone()),
            None => None,
        }
    }
}

} // verus!
