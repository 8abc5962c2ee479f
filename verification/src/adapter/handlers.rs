//! What the adapter's entry points decide once the registries have been
//! asked.

use vstd::prelude::*;
use crate::adapter::msg::{ConfigResponse, StatusResponse};
use crate::error::UsbError;
use crate::response::{response, Response};

verus! {

/// Namespace of the adapter.
pub const USB_NAMESPACE: &'static str = "usb";

/// Name of the adapter within its namespace.
pub const USB_NAME: &'static str = "usb";

/// Id of the adapter: namespace, colon, name.
pub const USB_ID: &'static str = "usb:usb";

/// Action of the response to a configuration update.
pub const UPDATE_CONFIG_ACTION: &'static str = "update_config";

/// Action of the response to a status change.
pub const SET_STATUS_ACTION: &'static str = "set_status";

/// The two contracts that make up an account.
#[derive(Clone, Debug, PartialEq, Eq)]
pub struct AccountBase {
    /// Address of the account's manager.
    pub manager: String,
    /// Address of the account's proxy.
    pub proxy: String,
}

impl AccountBase {
    /// Two accounts are the same when their managers and their proxies are.
    pub open spec fn same_account(&self, other: &AccountBase) -> bool {
        self.manager@ == other.manager@ && self.proxy@ == other.proxy@
    }

    /// Tells whether two accounts are the same.
    pub fn is_same_account(&self, other: &AccountBase) -> (same: bool)
        ensures
            same == self.same_account(other),
    {
        self.manager == other.manager && self.proxy == other.proxy
    }
}

/// Whether the account `target` may update the configuration of an adapter
/// whose namespace is owned by `namespace_owner`: the namespace is claimed,
/// the caller acts for an account, and the two are the same account.
pub open spec fn may_update_config(
    namespace_owner: Option<AccountBase>,
    target: Option<AccountBase>,
) -> bool {
    &&& namespace_owner matches Some(owner)
    &&& target matches Some(account)
    &&& owner.same_account(&account)
}

/// Decides a configuration update asked for by the account `target`, when
/// the adapter's namespace is owned by `namespace_owner`: the owner gets a
/// response named `update_config`, anyone else `Unauthorized`. Nobody owns
/// an unclaimed namespace, and a call for no account is the owner's for
/// nobody: both are `Unauthorized` too.
pub fn update_config(namespace_owner: &Option<AccountBase>, target: &Option<AccountBase>) -> (outcome:
    Result<Response, UsbError>)
    ensures
        outcome is Ok <==> may_update_config(*namespace_owner, *target),
        match outcome {
            Ok(answer) => {
                &&& answer.action@ == UPDATE_CONFIG_ACTION@
                &&& answer.attributes@.len() == 0
                &&& answer.messages@.len() == 0
            },
            Err(e) => e is Unauthorized,
        },
{
    match (namespace_owner, target) {
        (Some(owner), Some(account)) => {
            if owner.is_same_account(account) {
                Ok(response(UPDATE_CONFIG_ACTION))
            } else {
                Err(UsbError::Unauthorized)
            }
        },
        _ => Err(UsbError::Unauthorized),
    }
}

/// Answers a status change of the account written `account_id`: a response
/// named `set_status` that shows the new status, then the account.
pub fn set_status(status: &str, account_id: &str) -> (answer: Response)
    ensures
        answer.action@ == SET_STATUS_ACTION@,
        answer.messages@.len() == 0,
        answer.attributes@.len() == 2,
        answer.attributes@[0].key@ == "new_status"@,
        answer.attributes@[0].value@ == status@,
        answer.attributes@[1].key@ == "account_id"@,
        answer.attributes@[1].value@ == account_id@,
{
    let shown = response(SET_STATUS_ACTION).add_attribute("new_status", status);
    let answer = shown.add_attribute("account_id", account_id);
    assert(answer.attributes@.take(1)[0] == answer.attributes@[0]);
    answer
}

/// Shows the configuration.
pub fn query_config() -> (shown: ConfigResponse)
    ensures
        shown == (ConfigResponse {  }),
{
    ConfigResponse {  }
}

/// Shows the status that is stored for an account.
pub fn query_status(status: Option<String>) -> (shown: StatusResponse)
    ensures
        shown.status == status,
{
    StatusResponse { status }
}

} // verus!
