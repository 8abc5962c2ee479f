//! The dispatch envelope: encoded messages inside a module action for the
//! account's proxy on the destination chain, inside a remote dispatch that
//! the relay client forwards, sealed into one call that carries the funds.

use vstd::prelude::*;
use crate::encoder::{messages_view, EncodedMessage, EncodedMessageView};
use crate::error::UsbError;

verus! {

/// An amount of one denomination.
#[derive(Clone, Debug, PartialEq, Eq)]
pub struct Coin {
    /// The denomination.
    pub denom: String,
    /// How much of it.
    pub amount: u128,
}

/// A coin as plain values.
pub ghost struct CoinView {
    pub denom: Seq<char>,
    pub amount: u128,
}

impl View for Coin {
    type V = CoinView;

    open spec fn view(&self) -> CoinView {
        CoinView { denom: self.denom@, amount: self.amount }
    }
}

/// The plain values of a list of coins, in order.
pub open spec fn coins_view(funds: Seq<Coin>) -> Seq<CoinView> {
    Seq::new(funds.len(), |i: int| funds[i]@)
}

/// The inner layer: messages that the module `module_id` of the remote
/// account executes in the order given.
#[derive(Clone, Debug, PartialEq, Eq)]
pub struct ModuleAction {
    /// The module of the remote account that executes the messages.
    pub module_id: String,
    /// Funds attached to this layer.
    pub funds: Vec<Coin>,
    /// The messages, in execution order.
    pub msgs: Vec<EncodedMessage>,
}

/// The outer layer: a remote dispatch that names the destination chain and
/// holds the one action to forward, with the caller's funds.
#[derive(Clone, Debug, PartialEq, Eq)]
pub struct DispatchEnvelope {
    /// Name of the destination chain.
    pub host_chain: String,
    /// Funds attached to the dispatch.
    pub funds: Vec<Coin>,
    /// The action that the destination executes.
    pub action: ModuleAction,
}

/// A call of a contract: its address, the JSON message and the funds sent
/// along.
#[derive(Clone, Debug, PartialEq, Eq)]
pub struct ContractCall {
    /// Address of the contract.
    pub contract_addr: String,
    /// The message, as JSON bytes.
    pub msg: Vec<u8>,
    /// Funds sent with the call.
    pub funds: Vec<Coin>,
}

/// The name of a chain as the relay accepts it: 3 to 20 characters, each a
/// lower-case ASCII letter or a hyphen.
pub open spec fn valid_chain_name(name: Seq<char>) -> bool {
    &&& 3 <= name.len() <= 20
    &&& forall|i: int|
        0 <= i < name.len() ==> (97 <= (#[trigger] name[i]) as u32 <= 122 || name[i] == '-')
}

/// The JSON of the proxy's execute message that runs `msgs` as its module
/// action.
pub uninterp spec fn module_action_json(msgs: Seq<EncodedMessageView>) -> Seq<u8>;

/// The JSON of the relay client's execute message that dispatches to the
/// chain `host_chain` one manager message, which hands `exec_msg` to the
/// module `module_id`.
pub uninterp spec fn remote_action_json(
    host_chain: Seq<char>,
    module_id: Seq<char>,
    exec_msg: Seq<u8>,
) -> Seq<u8>;

impl DispatchEnvelope {
    /// Only the outer layer carries funds, and the destination is named as
    /// the relay accepts it.
    pub open spec fn well_formed(&self) -> bool {
        self.action.funds@.len() == 0 && valid_chain_name(self.host_chain@)
    }

    /// The messages that the destination executes, in order.
    pub open spec fn inner_messages(&self) -> Seq<EncodedMessageView> {
        messages_view(self.action.msgs@)
    }

    /// The JSON message that the sealed envelope hands to the relay client.
    pub open spec fn sealed_msg(&self) -> Seq<u8> {
        remote_action_json(
            self.host_chain@,
            self.action.module_id@,
            module_action_json(self.inner_messages()),
        )
    }
}

/// Gives `abstract_std::PROXY`, the module id of an account's proxy.
/// Trusted: the constant is the text `abstract:proxy`.
#[verifier::external_body]
fn proxy_module_id() -> (id: String)
    ensures
        id@ == "abstract:proxy"@,
{
    abstract_std::PROXY.to_string()
}

/// Calls `abstract_std::objects::chain_name::ChainName::from_string` and
/// takes the name back out. Trusted: the call accepts a name of 3 to 20
/// bytes whose characters are lower-case ASCII letters or hyphens, a name of
/// such characters having as many bytes as characters, and rejects every
/// other; an accepted name comes back unchanged.
#[verifier::external_body]
fn checked_chain_name(value: String) -> (checked: Result<String, abstract_std::AbstractError>)
    ensures
        checked is Ok <==> valid_chain_name(value@),
        checked matches Ok(name) ==> name@ == value@,
{
    abstract_std::objects::chain_name::ChainName::from_string(value).map(|name| name.into_string())
}

/// Calls `cosmwasm_std::to_json_binary` on `abstract_std::proxy::ExecuteMsg::ModuleAction`
/// holding one stargate message per encoded message, in order. Trusted: the
/// call succeeds, since the serialiser refuses only a map key that is no
/// string or a value whose own serialisation fails, and this message is
/// made of struct variants, a list, texts and bytes written as base64 text;
/// the bytes that come back are the JSON that the messages determine.
#[verifier::external_body]
fn serialize_module_action(msgs: &Vec<EncodedMessage>) -> (json: Result<
    Vec<u8>,
    cosmwasm_std::StdError,
>)
    ensures
        json is Ok,
        json matches Ok(bytes) ==> bytes@ == module_action_json(messages_view(msgs@)),
{
    let msgs = msgs.iter().map(
        |m|
            cosmwasm_std::CosmosMsg::Stargate {
                type_url: m.type_url.clone(),
                value: cosmwasm_std::Binary(m.value.clone()),
            },
    ).collect();
    cosmwasm_std::to_json_binary(&abstract_std::proxy::ExecuteMsg::ModuleAction { msgs }).map(
        |binary| binary.0,
    )
}

/// Calls `cosmwasm_std::to_json_binary` on `abstract_std::ibc_client::ExecuteMsg::RemoteAction`
/// whose host action dispatches one `abstract_std::manager::ExecuteMsg::ExecOnModule`.
/// Trusted: the call succeeds, since the serialiser refuses only a map key
/// that is no string or a value whose own serialisation fails, and this
/// message is made of struct variants, a list, texts and bytes written as
/// base64 text; the bytes that come back are the JSON that the chain name,
/// the module id and the module's message determine.
#[verifier::external_body]
fn serialize_remote_action(host_chain: &String, module_id: &String, exec_msg: &Vec<u8>) -> (json:
    Result<Vec<u8>, cosmwasm_std::StdError>)
    ensures
        json is Ok,
        json matches Ok(bytes) ==> bytes@ == remote_action_json(host_chain@, module_id@, exec_msg@),
{
    let on_module = abstract_std::manager::ExecuteMsg::ExecOnModule {
        module_id: module_id.clone(),
        exec_msg: cosmwasm_std::Binary(exec_msg.clone()),
    };
    let action = abstract_std::ibc_host::HostAction::Dispatch { manager_msgs: vec![on_module] };
    let remote = abstract_std::ibc_client::ExecuteMsg::RemoteAction {
        host_chain: host_chain.clone(),
        action,
    };
    cosmwasm_std::to_json_binary(&remote).map(|binary| binary.0)
}

/// Wraps encoded messages in the action that the remote account's proxy
/// executes. The layer carries no funds.
pub fn module_action(msgs: Vec<EncodedMessage>) -> (action: ModuleAction)
    ensures
        action.module_id@ == "abstract:proxy"@,
        action.funds@.len() == 0,
        action.msgs == msgs,
{
    ModuleAction { module_id: proxy_module_id(), funds: Vec::new(), msgs }
}

/// What a chain name check comes to for the envelope: the name when it was
/// accepted, the relay's error when it was not.
pub fn accepted_chain_name(checked: Result<String, abstract_std::AbstractError>) -> (outcome:
    Result<String, UsbError>)
    ensures
        match checked {
            Ok(name) => outcome == Ok::<String, UsbError>(name),
            Err(e) => outcome == Err::<String, UsbError>(UsbError::Abstract(e)),
        },
{
    match checked {
        Ok(name) => Ok(name),
        Err(e) => Err(UsbError::Abstract(e)),
    }
}

/// Builds the envelope of one batch: the messages in the order given inside
/// one proxy action, inside one dispatch to `host_chain` that carries
/// `funds`. A chain name that the relay does not accept is an error.
pub fn build_envelope(msgs: Vec<EncodedMessage>, host_chain: &str, funds: Vec<Coin>) -> (outcome:
    Result<DispatchEnvelope, UsbError>)
    ensures
        match outcome {
            Ok(envelope) => {
                &&& valid_chain_name(host_chain@)
                &&& envelope.well_formed()
                &&& envelope.host_chain@ == host_chain@
                &&& envelope.funds == funds
                &&& envelope.action.module_id@ == "abstract:proxy"@
                &&& envelope.action.msgs == msgs
            },
            Err(e) => !valid_chain_name(host_chain@) && e is Abstract,
        },
{
    let action = module_action(msgs);
    match accepted_chain_name(checked_chain_name(host_chain.to_owned())) {
        Ok(name) => Ok(DispatchEnvelope { host_chain: name, funds, action }),
        Err(e) => Err(e),
    }
}

/// Makes the call of a contract from its serialised message: the call when
/// there is a message, the serialiser's error when there is none. This is
/// what `cosmwasm_std::wasm_execute` makes of a message once it is
/// serialised.
pub fn contract_call(
    contract_addr: &str,
    payload: Result<Vec<u8>, cosmwasm_std::StdError>,
    funds: Vec<Coin>,
) -> (outcome: Result<ContractCall, UsbError>)
    ensures
        match payload {
            Ok(msg) => outcome matches Ok(call) && call.contract_addr@ == contract_addr@
                && call.msg == msg && call.funds == funds,
            Err(e) => outcome == Err::<ContractCall, UsbError>(UsbError::Std(e)),
        },
{
    match payload {
        Ok(msg) => Ok(ContractCall { contract_addr: contract_addr.to_owned(), msg, funds }),
        Err(e) => Err(UsbError::Std(e)),
    }
}

/// Seals an envelope into the one call of the relay client at `relay_addr`:
/// the call's message is the dispatch with everything inside it, and the
/// call carries the envelope's funds. The inner layer must carry none: the
/// call has no place for them. Sealing always succeeds.
pub fn seal(envelope: DispatchEnvelope, relay_addr: &str) -> (outcome: Result<
    ContractCall,
    UsbError,
>)
    requires
        envelope.action.funds@.len() == 0,
    ensures
        outcome matches Ok(call) && {
            &&& call.contract_addr@ == relay_addr@
            &&& call.msg@ == envelope.sealed_msg()
            &&& call.funds == envelope.funds
        },
{
    match serialize_module_action(&envelope.action.msgs) {
        Ok(exec_msg) => {
            let payload = serialize_remote_action(
                &envelope.host_chain,
                &envelope.action.module_id,
                &exec_msg,
            );
            contract_call(relay_addr, payload, envelope.funds)
        },
        Err(e) => Err(UsbError::Std(e)),
    }
}

} // verus!
