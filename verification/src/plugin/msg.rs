//! Messages of the plugin's entry points.

use vstd::prelude::*;
use crate::command::JackalMsg;

verus! {

/// Instantiates the plugin.
#[derive(Clone, Copy, Debug, PartialEq, Eq, Structural)]
pub struct UsbInstantiateMsg {}

/// Executes on the plugin.
#[derive(Clone, Debug, PartialEq, Eq)]
pub enum UsbExecuteMsg {
    /// Sends a batch of storage operations to the storage network, as one
    /// unit and in the order given.
    JackalMsgs { msgs: Vec<JackalMsg> },
}

/// Migrates the plugin.
#[derive(Clone, Copy, Debug, PartialEq, Eq, Structural)]
pub struct UsbMigrateMsg {}

/// Queries the plugin.
#[derive(Clone, Copy, Debug, PartialEq, Eq, Structural)]
pub enum UsbQueryMsg {
    /// Asks for the configuration.
    Config {  },
    /// Asks for the counter.
    Count {  },
}

/// The plugin's configuration, as a query shows it.
#[derive(Clone, Copy, Debug, PartialEq, Eq, Structural)]
pub struct ConfigResponse {}

/// The plugin's counter, as a query shows it.
#[derive(Clone, Copy, Debug, PartialEq, Eq, Structural)]
pub struct CountResponse {
    /// The counter's value.
    pub count: i32,
}

} // verus!
