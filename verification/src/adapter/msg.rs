//! Messages of the adapter's entry points.

use vstd::prelude::*;

verus! {

/// Declares `abstract_std::objects::AccountId`, the identifier of an
/// account, as a type that is carried through unopened.
#[verifier::external_type_specification]
#[verifier::external_body]
pub struct ExAccountId(abstract_std::objects::AccountId);

/// Instantiates the adapter.
#[derive(Clone, Copy, Debug, PartialEq, Eq, Structural)]
pub struct UsbAdapterInstantiateMsg {}

/// Executes on the adapter.
#[derive(Clone, Debug, PartialEq, Eq)]
pub enum UsbAdapterExecuteMsg {
    /// Sets the status of the calling account.
    SetStatus { status: String },
    /// Updates the adapter's configuration. Only the owner of the adapter's
    /// namespace may do so.
    UpdateConfig {  },
}

/// Queries the adapter.
#[derive(Debug, PartialEq)]
pub enum UsbAdapterQueryMsg {
    /// Asks for the status of an account.
    Status { account_id: abstract_std::objects::AccountId },
    /// Asks for the configuration.
    Config {  },
}

/// The adapter's configuration, as a query shows it.
#[derive(Clone, Copy, Debug, PartialEq, Eq, Structural)]
pub struct ConfigResponse {}

/// The status of an account, as a query shows it: `None` while none was
/// set.
#[derive(Clone, Debug, PartialEq, Eq)]
pub struct StatusResponse {
    /// The status, if one was set.
    pub status: Option<String>,
}

} // verus!
