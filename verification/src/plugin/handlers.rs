//! What the plugin's entry points decide: a batch is encoded, wrapped in
//! its envelope and executed on the account as one submessage.

use vstd::prelude::*;
use crate::command::JackalMsg;
use crate::encoder::{all_supported, batch_encoding, encode_batch};
use crate::envelope::{
    build_envelope, coins_view, module_action_json, remote_action_json, seal, Coin, CoinView,
    ContractCall, DispatchEnvelope,
};
use crate::error::UsbError;
use crate::plugin::msg::{
    ConfigResponse, CountResponse, UsbExecuteMsg, UsbInstantiateMsg, UsbMigrateMsg, UsbQueryMsg,
};
use crate::plugin::state::{Config, State};
use crate::reply::{ReplyCorrelator, ReplyOn, ReplyToken, JACKAL_MSG_REPLY_ID};
use crate::response::{
    account_action_json, execute_with_reply_and_data, executes_on_account, response, Response,
};

verus! {

/// Namespace of the plugin.
pub const USB_NAMESPACE: &'static str = "bitsong";

/// Name of the plugin within its namespace.
pub const USB_NAME: &'static str = "usb-plugin";

/// Id of the plugin: namespace, colon, name.
pub const USB_ID: &'static str = "bitsong:usb-plugin";

/// Name of the chain that storage operations are sent to.
pub const JACKAL_CHAIN: &'static str = "jackal";

/// Action of the response to a sent batch.
pub const SEND_CONTENT_ACTION: &'static str = "send_content";

/// Action of the response to a migration.
pub const MIGRATE_ACTION: &'static str = "migrate";

/// What preparing a batch comes to: when every operation is supported, a
/// well-formed envelope for the storage chain that holds the batch's wire
/// messages in the order of the batch inside the proxy's action, with the
/// funds on the outer layer and none inside; otherwise `NotImplemented` and
/// no envelope.
pub open spec fn prepares(
    sender: Seq<char>,
    funds: Vec<Coin>,
    msgs: Seq<JackalMsg>,
    outcome: Result<DispatchEnvelope, UsbError>,
) -> bool {
    match outcome {
        Ok(envelope) => {
            &&& all_supported(msgs)
            &&& envelope.well_formed()
            &&& envelope.host_chain@ == JACKAL_CHAIN@
            &&& envelope.funds == funds
            &&& envelope.action.funds@.len() == 0
            &&& envelope.action.module_id@ == "abstract:proxy"@
            &&& envelope.inner_messages() == batch_encoding(sender, msgs)
        },
        Err(e) => !all_supported(msgs) && e is NotImplemented,
    }
}

/// Encodes a batch issued by `sender` and wraps it in its envelope.
pub fn prepare_dispatch(sender: &str, funds: Vec<Coin>, msgs: &Vec<JackalMsg>) -> (outcome: Result<
    DispatchEnvelope,
    UsbError,
>)
    ensures
        prepares(sender@, funds, msgs@, outcome),
{
    let encoded = match encode_batch(sender, msgs) {
        Ok(encoded) => encoded,
        Err(e) => { return Err(e); },
    };
    proof {
        reveal_strlit("jackal");
    }
    build_envelope(encoded, JACKAL_CHAIN, funds)
}

/// The JSON of the one call that a batch comes to: the account executes,
/// through its proxy, the call of the relay client at `relay_addr` that
/// carries `funds` and dispatches to the storage chain the proxy action
/// holding the batch's wire messages.
pub open spec fn dispatch_json(
    sender: Seq<char>,
    funds: Seq<CoinView>,
    msgs: Seq<JackalMsg>,
    relay_addr: Seq<char>,
) -> Seq<u8> {
    account_action_json(
        relay_addr,
        remote_action_json(
            JACKAL_CHAIN@,
            "abstract:proxy"@,
            module_action_json(batch_encoding(sender, msgs)),
        ),
        funds,
    )
}

/// What sending a batch comes to when it succeeds: a response named
/// `send_content` that runs exactly one submessage, a call of the proxy at
/// `proxy_addr` without funds whose completion is reported on success under
/// the id of dispatched batches.
pub open spec fn sent_as(
    sender: Seq<char>,
    funds: Seq<CoinView>,
    msgs: Seq<JackalMsg>,
    relay_addr: Seq<char>,
    proxy_addr: Seq<char>,
    sent: Response,
) -> bool {
    &&& sent.action@ == SEND_CONTENT_ACTION@
    &&& sent.attributes@.len() == 0
    &&& sent.messages@.len() == 1
    &&& sent.messages@[0].id == JACKAL_MSG_REPLY_ID
    &&& sent.messages@[0].reply_on == ReplyOn::Success
    &&& sent.messages@[0].gas_limit is None
    &&& sent.messages@[0].call.contract_addr@ == proxy_addr
    &&& sent.messages@[0].call.funds@.len() == 0
    &&& sent.messages@[0].call.msg@ == dispatch_json(sender, funds, msgs, relay_addr)
}

/// What dispatching an envelope comes to when it succeeds: a response named
/// `send_content` that runs exactly one submessage, a call of the proxy at
/// `proxy_addr` without funds, which has the account call the relay client
/// at `relay_addr` with the sealed envelope and the envelope's funds, and
/// whose completion is reported on success under the id of dispatched
/// batches.
pub open spec fn dispatched_as(
    envelope: DispatchEnvelope,
    relay_addr: Seq<char>,
    proxy_addr: Seq<char>,
    sent: Response,
) -> bool {
    &&& sent.action@ == SEND_CONTENT_ACTION@
    &&& sent.attributes@.len() == 0
    &&& sent.messages@.len() == 1
    &&& sent.messages@[0].id == JACKAL_MSG_REPLY_ID
    &&& sent.messages@[0].reply_on == ReplyOn::Success
    &&& sent.messages@[0].gas_limit is None
    &&& sent.messages@[0].call.contract_addr@ == proxy_addr
    &&& sent.messages@[0].call.funds@.len() == 0
    &&& sent.messages@[0].call.msg@ == account_action_json(
        relay_addr,
        envelope.sealed_msg(),
        coins_view(envelope.funds@),
    )
}

/// How a request to dispatch changes the record of awaited replies: a
/// dispatched batch is awaited from then on, a request that failed leaves
/// the record as it was, and the setup is never touched.
pub open spec fn awaits_after(before: ReplyCorrelator, dispatched: bool, after: ReplyCorrelator) -> bool {
    &&& after.pending(ReplyToken::Dispatch) == (before.pending(ReplyToken::Dispatch) || dispatched)
    &&& after.pending(ReplyToken::Setup) == before.pending(ReplyToken::Setup)
}

/// Makes the response that runs a sealed envelope on the account.
fn account_response(send_as_proxy: &ContractCall, proxy_addr: &str) -> (outcome: Result<
    Response,
    UsbError,
>)
    ensures
        outcome matches Ok(sent) && {
            &&& sent.action@ == SEND_CONTENT_ACTION@
            &&& sent.attributes@.len() == 0
            &&& sent.messages@.len() == 1
            &&& executes_on_account(
                proxy_addr@,
                *send_as_proxy,
                ReplyOn::Success,
                JACKAL_MSG_REPLY_ID,
                sent.messages@[0],
            )
        },
{
    match execute_with_reply_and_data(
        proxy_addr,
        send_as_proxy,
        ReplyOn::Success,
        JACKAL_MSG_REPLY_ID,
    ) {
        Ok(sub) => Ok(response(SEND_CONTENT_ACTION).add_submessage(sub)),
        Err(e) => Err(e),
    }
}

/// Dispatches an envelope under the rule that one batch at a time awaits
/// its reply. While an earlier batch is awaited the request is refused as
/// `ReplyPending` and nothing is dispatched. Otherwise the envelope is
/// sealed into one call of the relay client at `relay_addr`, which the
/// account executes through its proxy at `proxy_addr` as one submessage
/// with a reply on success, and the batch is awaited from then on. The
/// inner layer must carry no funds.
pub fn dispatch_envelope(
    record: &mut ReplyCorrelator,
    envelope: DispatchEnvelope,
    relay_addr: &str,
    proxy_addr: &str,
) -> (outcome: Result<Response, UsbError>)
    requires
        envelope.action.funds@.len() == 0,
    ensures
        outcome is Ok <==> !old(record).pending(ReplyToken::Dispatch),
        match outcome {
            Ok(sent) => dispatched_as(envelope, relay_addr@, proxy_addr@, sent),
            Err(e) => e is ReplyPending,
        },
        awaits_after(*old(record), outcome is Ok, *final(record)),
{
    if record.is_pending(ReplyToken::Dispatch) {
        return Err(UsbError::ReplyPending);
    }
    let outcome = match seal(envelope, relay_addr) {
        Ok(send_as_proxy) => account_response(&send_as_proxy, proxy_addr),
        Err(e) => Err(e),
    };
    if outcome.is_ok() {
        let accepted = record.begin(ReplyToken::Dispatch);
    }
    outcome
}

/// What sending a batch comes to. A batch with an unsupported operation
/// fails as `NotImplemented`, wherever the operation stands and whatever is
/// awaited. Any other batch is refused as `ReplyPending` while an earlier
/// one is awaited, and is sent otherwise, whatever its fields hold: as one
/// response with one submessage.
pub open spec fn sends(
    pending: bool,
    sender: Seq<char>,
    funds: Seq<CoinView>,
    msgs: Seq<JackalMsg>,
    relay_addr: Seq<char>,
    proxy_addr: Seq<char>,
    outcome: Result<Response, UsbError>,
) -> bool {
    &&& outcome is Ok <==> all_supported(msgs) && !pending
    &&& match outcome {
        Ok(sent) => sent_as(sender, funds, msgs, relay_addr, proxy_addr, sent),
        Err(e) => if !all_supported(msgs) {
            e is NotImplemented
        } else {
            e is ReplyPending
        },
    }
}

/// Sends a batch of storage operations issued by `sender`, with `funds`,
/// through the relay client at `relay_addr`, executed by the account's
/// proxy at `proxy_addr`, under the rule that one batch at a time awaits
/// its reply. The batch is encoded first: an unsupported operation fails
/// the whole batch before anything else is done. A batch that was sent is
/// awaited from then on; a batch that was not leaves the record as it was.
pub fn send_content(
    record: &mut ReplyCorrelator,
    sender: &str,
    funds: Vec<Coin>,
    msgs: &Vec<JackalMsg>,
    relay_addr: &str,
    proxy_addr: &str,
) -> (outcome: Result<Response, UsbError>)
    ensures
        sends(
            old(record).pending(ReplyToken::Dispatch),
            sender@,
            coins_view(funds@),
            msgs@,
            relay_addr@,
            proxy_addr@,
            outcome,
        ),
        awaits_after(*old(record), outcome is Ok, *final(record)),
{
    match prepare_dispatch(sender, funds, msgs) {
        Ok(envelope) => dispatch_envelope(record, envelope, relay_addr, proxy_addr),
        Err(e) => Err(e),
    }
}

/// Sends one storage operation: the batch that holds it and nothing else.
pub fn send_command(
    record: &mut ReplyCorrelator,
    sender: &str,
    funds: Vec<Coin>,
    msg: JackalMsg,
    relay_addr: &str,
    proxy_addr: &str,
) -> (outcome: Result<Response, UsbError>)
    ensures
        sends(
            old(record).pending(ReplyToken::Dispatch),
            sender@,
            coins_view(funds@),
            seq![msg],
            relay_addr@,
            proxy_addr@,
            outcome,
        ),
        awaits_after(*old(record), outcome is Ok, *final(record)),
{
    let mut msgs: Vec<JackalMsg> = Vec::new();
    msgs.push(msg);
    assert(msgs@ =~= seq![msg]);
    send_content(record, sender, funds, &msgs, relay_addr, proxy_addr)
}

/// Executes a message on the plugin for `sender`: its batch is sent as
/// `send_content` sends it.
pub fn execute_handler(
    record: &mut ReplyCorrelator,
    sender: &str,
    funds: Vec<Coin>,
    msg: &UsbExecuteMsg,
    relay_addr: &str,
    proxy_addr: &str,
) -> (outcome: Result<Response, UsbError>)
    ensures
        msg matches UsbExecuteMsg::JackalMsgs { msgs } && sends(
            old(record).pending(ReplyToken::Dispatch),
            sender@,
            coins_view(funds@),
            msgs@,
            relay_addr@,
            proxy_addr@,
            outcome,
        ),
        awaits_after(*old(record), outcome is Ok, *final(record)),
{
    match msg {
        UsbExecuteMsg::JackalMsgs { msgs } => send_content(
            record,
            sender,
            funds,
            msgs,
            relay_addr,
            proxy_addr,
        ),
    }
}

/// Gives the state that a fresh plugin starts from: an empty configuration
/// and a counter at zero.
pub fn instantiate_handler(msg: UsbInstantiateMsg) -> (state: State)
    ensures
        state == (State { config: Config {  }, count: 0 }),
{
    State { config: Config {  }, count: 0 }
}

/// Answers a migration.
pub fn migrate_handler(msg: UsbMigrateMsg) -> (answer: Response)
    ensures
        answer.action@ == MIGRATE_ACTION@,
        answer.attributes@.len() == 0,
        answer.messages@.len() == 0,
{
    response(MIGRATE_ACTION)
}

/// What a query of the plugin shows.
#[derive(Clone, Copy, Debug, PartialEq, Eq, Structural)]
pub enum UsbQueryResponse {
    /// The configuration.
    Config(ConfigResponse),
    /// The counter.
    Count(CountResponse),
}

/// Shows the configuration.
pub fn query_config(config: Config) -> (shown: ConfigResponse)
    ensures
        shown == (ConfigResponse {  }),
{
    ConfigResponse {  }
}

/// Shows the counter.
pub fn query_count(count: i32) -> (shown: CountResponse)
    ensures
        shown.count == count,
{
    CountResponse { count }
}

/// Answers a query from the plugin's state.
pub fn query_handler(state: State, msg: UsbQueryMsg) -> (shown: UsbQueryResponse)
    ensures
        shown == match msg {
            UsbQueryMsg::Config {  } => UsbQueryResponse::Config(ConfigResponse {  }),
            UsbQueryMsg::Count {  } => UsbQueryResponse::Count(CountResponse { count: state.count }),
        },
{
    match msg {
        UsbQueryMsg::Config {  } => UsbQueryResponse::Config(query_config(state.config)),
        UsbQueryMsg::Count {  } => UsbQueryResponse::Count(query_count(state.count)),
    }
}

} // verus!
