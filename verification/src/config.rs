//! User-visible configuration.
//!
//! The configuration store is an external collaborator: it loads the initial
//! value at startup and reports every later change through a notification
//! stream. Each page keeps its own copy of the latest value, refreshed by
//! the dispatcher's broadcast, so a page's copy is stale by at most one
//! broadcast cycle.

use vstd::prelude::*;

verus! {

/// The set of user-visible toggles.
#[derive(Clone, Copy, Debug, PartialEq, Eq, Structural)]
pub struct Config {
    /// Scale per-process usage by the number of cores.
    pub scale_by_core: bool,
    /// Show one usage graph per core rather than one overall.
    pub multicore_view: bool,
}

impl Default for Config {
    /// Every toggle off.
    fn default() -> (config: Config)
        ensures
            config == (Config { scale_by_core: false, multicore_view: false }),
    {
        Config { scale_by_core: false, multicore_view: false }
    }
}

/// One change notification from the configuration store: the new value plus
/// any validation faults, which are logged and never fatal.
#[derive(Clone, Debug, PartialEq, Eq)]
pub struct ConfigUpdate {
    pub config: Config,
    /// Messages describing values the store could not validate.
    pub errors: Vec<String>,
}

} // verus!
