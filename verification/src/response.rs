//! What a handler hands back to the runtime: a named response with its
//! attributes and the submessages to run, each an account execution that may
//! ask for a reply.

use vstd::prelude::*;
use crate::envelope::{coins_view, contract_call, Coin, CoinView, ContractCall};
use crate::error::UsbError;
use crate::reply::ReplyOn;

verus! {

/// A call that the runtime runs after the handler, with the reply it owes.
#[derive(Clone, Debug, PartialEq, Eq)]
pub struct SubMessage {
    /// The reply id under which the completion is reported.
    pub id: u64,
    /// The call to run.
    pub call: ContractCall,
    /// Gas limit of the call, if it has one.
    pub gas_limit: Option<u64>,
    /// When the completion is reported.
    pub reply_on: ReplyOn,
}

/// A key and a value that a response shows to the caller.
#[derive(Clone, Debug, PartialEq, Eq)]
pub struct Attribute {
    /// The attribute's name.
    pub key: String,
    /// The attribute's value.
    pub value: String,
}

/// The response of a handler.
#[derive(Clone, Debug, PartialEq, Eq)]
pub struct Response {
    /// Names what the handler did.
    pub action: String,
    /// What the response shows besides, in order.
    pub attributes: Vec<Attribute>,
    /// The submessages to run, in order.
    pub messages: Vec<SubMessage>,
}

/// The JSON of the proxy's execute message that runs, and forwards the data
/// of, the call of the contract `contract_addr` with the message `msg` and
/// the funds `funds`.
pub uninterp spec fn account_action_json(
    contract_addr: Seq<char>,
    msg: Seq<u8>,
    funds: Seq<CoinView>,
) -> Seq<u8>;

/// Calls `cosmwasm_std::to_json_binary` on `abstract_std::proxy::ExecuteMsg::ModuleActionWithData`
/// holding the execution of `action` as a wasm message. Trusted: the call
/// succeeds, since the serialiser refuses only a map key that is no string
/// or a value whose own serialisation fails, and this message is made of
/// struct variants, a list, texts, bytes written as base64 text and amounts
/// written as decimal text; the bytes that come back are the JSON that the
/// address, the message and the funds of `action` determine.
#[verifier::external_body]
fn serialize_account_action(action: &ContractCall) -> (json: Result<Vec<u8>, cosmwasm_std::StdError>)
    ensures
        json is Ok,
        json matches Ok(bytes) ==> bytes@ == account_action_json(
            action.contract_addr@,
            action.msg@,
            coins_view(action.funds@),
        ),
{
    let funds = action.funds.iter().map(
        |coin| cosmwasm_std::Coin::new(coin.amount, coin.denom.clone()),
    ).collect();
    let msg = cosmwasm_std::CosmosMsg::Wasm(
        cosmwasm_std::WasmMsg::Execute {
            contract_addr: action.contract_addr.clone(),
            msg: cosmwasm_std::Binary(action.msg.clone()),
            funds,
        },
    );
    cosmwasm_std::to_json_binary(&abstract_std::proxy::ExecuteMsg::ModuleActionWithData { msg }).map(
        |binary| binary.0,
    )
}

/// Makes the submessage that runs `call` and reports under `id` as
/// `reply_on` says. The submessage has no gas limit.
pub fn sub_message(call: ContractCall, reply_on: ReplyOn, id: u64) -> (sub: SubMessage)
    ensures
        sub.id == id,
        sub.call == call,
        sub.gas_limit is None,
        sub.reply_on == reply_on,
{
    SubMessage { id, call, gas_limit: None, reply_on }
}

/// What executing `action` on the account through the proxy at
/// `proxy_addr`, with a reply under `id`, comes to when it succeeds: one
/// submessage that calls the proxy without funds.
pub open spec fn executes_on_account(
    proxy_addr: Seq<char>,
    action: ContractCall,
    reply_on: ReplyOn,
    id: u64,
    sub: SubMessage,
) -> bool {
    &&& sub.id == id
    &&& sub.reply_on == reply_on
    &&& sub.gas_limit is None
    &&& sub.call.contract_addr@ == proxy_addr
    &&& sub.call.funds@.len() == 0
    &&& sub.call.msg@ == account_action_json(
        action.contract_addr@,
        action.msg@,
        coins_view(action.funds@),
    )
}

/// Executes `action` on the account: the proxy at `proxy_addr` runs it and
/// forwards its data, and the runtime reports under `id` as `reply_on`
/// says. This always succeeds.
///
/// The function builds what `abstract_sdk::Executor::execute_with_reply_and_data`
/// builds once the proxy's address is known. The executor itself reads that
/// address from the chain's state, so the caller reads it and hands it in.
pub fn execute_with_reply_and_data(
    proxy_addr: &str,
    action: &ContractCall,
    reply_on: ReplyOn,
    id: u64,
) -> (outcome: Result<SubMessage, UsbError>)
    ensures
        outcome matches Ok(sub) && executes_on_account(proxy_addr@, *action, reply_on, id, sub),
{
    match contract_call(proxy_addr, serialize_account_action(action), Vec::new()) {
        Ok(call) => Ok(sub_message(call, reply_on, id)),
        Err(e) => Err(e),
    }
}

/// A response named `action` that shows nothing else and runs nothing.
pub fn response(action: &str) -> (named: Response)
    ensures
        named.action@ == action@,
        named.attributes@.len() == 0,
        named.messages@.len() == 0,
{
    Response { action: action.to_owned(), attributes: Vec::new(), messages: Vec::new() }
}

impl Response {
    /// Adds an attribute behind those that the response shows.
    pub fn add_attribute(self, key: &str, value: &str) -> (shown: Response)
        ensures
            shown.action == self.action,
            shown.messages == self.messages,
            shown.attributes@.len() == self.attributes@.len() + 1,
            shown.attributes@.take(self.attributes@.len() as int) == self.attributes@,
            shown.attributes@.last().key@ == key@,
            shown.attributes@.last().value@ == value@,
    {
        let mut shown = self;
        shown.attributes.push(Attribute { key: key.to_owned(), value: value.to_owned() });
        shown
    }

    /// Adds a submessage behind those that the response runs.
    pub fn add_submessage(self, sub: SubMessage) -> (running: Response)
        ensures
            running.action == self.action,
            running.attributes == self.attributes,
            running.messages@ == self.messages@.push(sub),
    {
        let mut running = self;
        running.messages.push(sub);
        running
    }
}

} // verus!
