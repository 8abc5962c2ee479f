//! What the plugin keeps between calls.

use vstd::prelude::*;

verus! {

/// The plugin's configuration. It holds nothing yet.
#[derive(Clone, Copy, Debug, PartialEq, Eq, Structural)]
pub struct Config {}

/// The plugin's persisted values.
#[derive(Clone, Copy, Debug, PartialEq, Eq, Structural)]
pub struct State {
    /// The configuration.
    pub config: Config,
    /// The counter.
    pub count: i32,
}

} // verus!
