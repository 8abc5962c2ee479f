//! What holds of the encoder and of the envelope whatever they are given.

use vstd::prelude::*;
use crate::command::JackalMsg;
use crate::encoder::{
    all_supported, batch_encodes_to, batch_encoding, encodes_to, encoding_of, messages_view,
    type_url_of, EncodedMessage,
};
use crate::envelope::{Coin, CoinView, DispatchEnvelope};
use crate::error::UsbError;
use crate::plugin::handlers::{awaits_after, prepares, sends};
use crate::reply::{ReplyCorrelator, ReplyToken};
use crate::response::Response;

verus! {

/// Encoding is deterministic: two outcomes of encoding one operation for
/// one sender are both the same message, type URL and bytes, or both the
/// same refusal.
pub proof fn lemma_encoding_deterministic(
    sender: Seq<char>,
    msg: JackalMsg,
    first: Result<EncodedMessage, UsbError>,
    second: Result<EncodedMessage, UsbError>,
)
    requires
        encodes_to(sender, msg, first),
        encodes_to(sender, msg, second),
    ensures
        first is Ok <==> second is Ok,
        first is Ok ==> first->Ok_0@ == second->Ok_0@,
        first is Err ==> first->Err_0 is NotImplemented && second->Err_0 is NotImplemented,
{
}

/// The encoding of an operation depends on what the operation holds and on
/// nothing else: two operations of one kind with the same fields have the
/// same type URL and the same bytes for one sender, and are supported or
/// not together.
pub proof fn lemma_encoding_depends_on_fields_only(sender: Seq<char>, a: JackalMsg, b: JackalMsg)
    requires
        a.same_fields(&b),
    ensures
        a.is_supported() == b.is_supported(),
        encoding_of(sender, a) == encoding_of(sender, b),
{
}

/// Encoding a batch is deterministic: two outcomes of encoding one batch
/// for one sender hold the same messages in the same order, or both fail.
pub proof fn lemma_batch_encoding_deterministic(
    sender: Seq<char>,
    msgs: Seq<JackalMsg>,
    first: Result<Vec<EncodedMessage>, UsbError>,
    second: Result<Vec<EncodedMessage>, UsbError>,
)
    requires
        batch_encodes_to(sender, msgs, first),
        batch_encodes_to(sender, msgs, second),
    ensures
        first is Ok <==> second is Ok,
        first is Ok ==> messages_view(first->Ok_0@) == messages_view(second->Ok_0@),
{
}

/// No two kinds of operation share a type URL: two operations travel
/// under one type URL exactly when they are of one kind.
pub proof fn lemma_type_url_names_one_operation(a: JackalMsg, b: JackalMsg)
    ensures
        type_url_of(a) == type_url_of(b) <==> a.operation() == b.operation(),
{
    reveal_strlit("/canine_chain.filetree.MsgMakeRootV2");
    reveal_strlit("/canine_chain.filetree.MsgPostFile");
    reveal_strlit("/canine_chain.filetree.MsgAddViewers");
    reveal_strlit("/canine_chain.filetree.MsgRemoveViewers");
    reveal_strlit("/canine_chain.storage.MsgSignContract");
    reveal_strlit("/canine_chain.storage.MsgCancelContract");
    reveal_strlit("/canine_chain.storage.MsgBuyStorage");
    reveal_strlit("/canine_chain.storage.MsgUpgradeStorage");
    reveal_strlit("/canine_chain.storage.MsgPostKey");
    if type_url_of(a) == type_url_of(b) {
        let url = type_url_of(a);
        if url.len() == 36 || url.len() == 39 {
            // Type URLs of one length differ in the name of the message.
            assert(type_url_of(a)[26] == type_url_of(b)[26]);
        }
    }
}

/// The messages of an encoded batch stand in the order of the batch: the
/// message at each place is the encoding of the operation at that place.
pub proof fn lemma_batch_order_preserved(
    sender: Seq<char>,
    msgs: Seq<JackalMsg>,
    encoded: Vec<EncodedMessage>,
    place: int,
)
    requires
        batch_encodes_to(sender, msgs, Ok(encoded)),
        0 <= place < msgs.len(),
    ensures
        encoded@.len() == msgs.len(),
        encoded@[place]@ == encoding_of(sender, msgs[place]),
{
    assert(messages_view(encoded@).len() == batch_encoding(sender, msgs).len());
    assert(messages_view(encoded@)[place] == batch_encoding(sender, msgs)[place]);
}

/// A batch fails fast: with an unsupported operation at any place, the
/// outcome is the one error `NotImplemented`, and no message.
pub proof fn lemma_batch_fails_fast(
    sender: Seq<char>,
    msgs: Seq<JackalMsg>,
    place: int,
    outcome: Result<Vec<EncodedMessage>, UsbError>,
)
    requires
        0 <= place < msgs.len(),
        !msgs[place].is_supported(),
        batch_encodes_to(sender, msgs, outcome),
    ensures
        outcome is Err,
        outcome->Err_0 is NotImplemented,
{
    assert(!all_supported(msgs));
}

/// The envelope of a batch holds the batch's messages in the order of the
/// batch: the inner message at each place is the encoding of the operation
/// at that place, and there are as many messages as operations.
pub proof fn lemma_envelope_order_preserved(
    sender: Seq<char>,
    funds: Vec<Coin>,
    msgs: Seq<JackalMsg>,
    envelope: DispatchEnvelope,
    place: int,
)
    requires
        prepares(sender, funds, msgs, Ok(envelope)),
        0 <= place < msgs.len(),
    ensures
        envelope.inner_messages().len() == msgs.len(),
        envelope.action.msgs@.len() == msgs.len(),
        envelope.inner_messages()[place] == encoding_of(sender, msgs[place]),
        envelope.action.msgs@[place]@ == encoding_of(sender, msgs[place]),
{
    assert(envelope.inner_messages().len() == batch_encoding(sender, msgs).len());
    assert(envelope.inner_messages()[place] == batch_encoding(sender, msgs)[place]);
}

/// An envelope fails fast: with an unsupported operation at any place of
/// the batch, preparing it gives the one error `NotImplemented`, and no
/// envelope.
pub proof fn lemma_envelope_fails_fast(
    sender: Seq<char>,
    funds: Vec<Coin>,
    msgs: Seq<JackalMsg>,
    place: int,
    outcome: Result<DispatchEnvelope, UsbError>,
)
    requires
        0 <= place < msgs.len(),
        !msgs[place].is_supported(),
        prepares(sender, funds, msgs, outcome),
    ensures
        outcome is Err,
        outcome->Err_0 is NotImplemented,
{
    assert(!all_supported(msgs));
}

/// Funds attach to the outer layer of a batch's envelope only: the outer
/// layer carries the caller's funds, the inner layer none.
pub proof fn lemma_funds_on_outer_layer_only(
    sender: Seq<char>,
    funds: Vec<Coin>,
    msgs: Seq<JackalMsg>,
    envelope: DispatchEnvelope,
)
    requires
        prepares(sender, funds, msgs, Ok(envelope)),
    ensures
        envelope.funds == funds,
        envelope.action.funds@.len() == 0,
{
}

/// A batch comes to one outer call: a supported batch of any length, the
/// empty one too, sent while nothing is awaited, succeeds with exactly one
/// submessage, reported under the id of dispatched batches.
pub proof fn lemma_one_outer_call(
    sender: Seq<char>,
    funds: Seq<CoinView>,
    msgs: Seq<JackalMsg>,
    relay_addr: Seq<char>,
    proxy_addr: Seq<char>,
    outcome: Result<Response, UsbError>,
)
    requires
        all_supported(msgs),
        sends(false, sender, funds, msgs, relay_addr, proxy_addr, outcome),
    ensures
        outcome is Ok,
        outcome->Ok_0.messages@.len() == 1,
        outcome->Ok_0.messages@[0].id == ReplyToken::Dispatch.spec_id(),
{
}

/// One batch at a time awaits its reply: after a batch was sent, a second
/// request under the record that the first left behind is refused, as
/// `ReplyPending` when its batch is supported, and leaves the record as it
/// was.
pub proof fn lemma_single_batch_in_flight(
    sender: Seq<char>,
    funds: Seq<CoinView>,
    msgs: Seq<JackalMsg>,
    relay_addr: Seq<char>,
    proxy_addr: Seq<char>,
    before: ReplyCorrelator,
    first: Result<Response, UsbError>,
    between: ReplyCorrelator,
    second: Result<Response, UsbError>,
    after: ReplyCorrelator,
)
    requires
        first is Ok,
        awaits_after(before, first is Ok, between),
        sends(
            between.pending(ReplyToken::Dispatch),
            sender,
            funds,
            msgs,
            relay_addr,
            proxy_addr,
            second,
        ),
        awaits_after(between, second is Ok, after),
    ensures
        second is Err,
        all_supported(msgs) ==> second->Err_0 is ReplyPending,
        after == between,
{
}

} // verus!
