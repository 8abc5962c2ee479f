//! From a storage operation to its wire message: a type URL that names the
//! message, and the message's protobuf bytes.

use vstd::prelude::*;
use crate::command::JackalMsg;
use crate::error::UsbError;
use crate::helpers::{content_id, hash_and_hex};
use crate::types::filetree::{
    add_viewers_bytes, delete_viewers_bytes, make_root_bytes, post_file_bytes, post_key_bytes,
    MsgAddViewers, MsgDeleteViewers, MsgMakeRootV2, MsgPostFile, MsgPostKey,
};
use crate::types::storage::{
    contract_ref_bytes, storage_order_bytes, MsgBuyStorage, MsgCancelContract, MsgSignContract,
    MsgUpgradeStorage,
};

verus! {

/// Type URL of the message that creates a root folder.
pub const MAKE_ROOT_TYPE_URL: &'static str = "/canine_chain.filetree.MsgMakeRootV2";

/// Type URL of the message that posts a file.
pub const POST_FILE_TYPE_URL: &'static str = "/canine_chain.filetree.MsgPostFile";

/// Type URL of the message that adds viewers.
pub const ADD_VIEWERS_TYPE_URL: &'static str = "/canine_chain.filetree.MsgAddViewers";

/// Type URL of the message that removes viewers.
pub const DELETE_VIEWERS_TYPE_URL: &'static str = "/canine_chain.filetree.MsgRemoveViewers";

/// Type URL of the message that signs a storage contract.
pub const SIGN_CONTRACT_TYPE_URL: &'static str = "/canine_chain.storage.MsgSignContract";

/// Type URL of the message that cancels a storage contract.
pub const CANCEL_CONTRACT_TYPE_URL: &'static str = "/canine_chain.storage.MsgCancelContract";

/// Type URL of the message that buys storage.
pub const BUY_STORAGE_TYPE_URL: &'static str = "/canine_chain.storage.MsgBuyStorage";

/// Type URL of the message that upgrades storage.
pub const UPGRADE_STORAGE_TYPE_URL: &'static str = "/canine_chain.storage.MsgUpgradeStorage";

/// Type URL of the message that posts a key.
pub const POST_KEY_TYPE_URL: &'static str = "/canine_chain.storage.MsgPostKey";

/// A message ready for the destination chain: the type URL that names its
/// layout, and its bytes.
#[derive(Clone, Debug, PartialEq, Eq)]
pub struct EncodedMessage {
    /// Names the message's layout to the destination chain.
    pub type_url: String,
    /// The message's protobuf bytes.
    pub value: Vec<u8>,
}

/// An encoded message as plain values.
pub ghost struct EncodedMessageView {
    pub type_url: Seq<char>,
    pub value: Seq<u8>,
}

impl View for EncodedMessage {
    type V = EncodedMessageView;

    open spec fn view(&self) -> EncodedMessageView {
        EncodedMessageView { type_url: self.type_url@, value: self.value@ }
    }
}

/// The type URL under which an operation travels. The unsupported operation
/// has none; its place is filled with the empty text.
pub open spec fn type_url_of(msg: JackalMsg) -> Seq<char>
    recommends
        msg.is_supported(),
{
    match msg {
        JackalMsg::MakeRoot { .. } => MAKE_ROOT_TYPE_URL@,
        JackalMsg::PostFile { .. } => POST_FILE_TYPE_URL@,
        JackalMsg::AddViewers { .. } => ADD_VIEWERS_TYPE_URL@,
        JackalMsg::DeleteViewers { .. } => DELETE_VIEWERS_TYPE_URL@,
        JackalMsg::SignContract { .. } => SIGN_CONTRACT_TYPE_URL@,
        JackalMsg::CancelContract { .. } => CANCEL_CONTRACT_TYPE_URL@,
        JackalMsg::BuyStorage { .. } => BUY_STORAGE_TYPE_URL@,
        JackalMsg::UpgradeStorage { .. } => UPGRADE_STORAGE_TYPE_URL@,
        JackalMsg::PostKey { .. } => POST_KEY_TYPE_URL@,
        JackalMsg::Delete {  } => Seq::<char>::empty(),
    }
}

/// The bytes that an operation issued by `sender` is encoded to. The sender
/// is the creator of every message; a posted file's account is the content
/// identifier of the sender, whatever the operation holds. The unsupported
/// operation has no bytes; its place is filled with the empty sequence.
pub open spec fn payload_of(sender: Seq<char>, msg: JackalMsg) -> Seq<u8>
    recommends
        msg.is_supported(),
{
    match msg {
        JackalMsg::MakeRoot { editors, viewers, tracking_number } => make_root_bytes(
            sender,
            editors@,
            viewers@,
            tracking_number@,
        ),
        JackalMsg::PostFile {
            hash_parent,
            hash_child,
            contents,
            viewers,
            editors,
            tracking_number,
        } => post_file_bytes(
            sender,
            content_id(sender),
            hash_parent@,
            hash_child@,
            contents@,
            viewers@,
            editors@,
            tracking_number@,
        ),
        JackalMsg::AddViewers { viewer_ids, viewer_keys, address, owner } => add_viewers_bytes(
            sender,
            viewer_ids@,
            viewer_keys@,
            address@,
            owner@,
        ),
        JackalMsg::DeleteViewers { viewer_ids, address, owner } => delete_viewers_bytes(
            sender,
            viewer_ids@,
            address@,
            owner@,
        ),
        JackalMsg::SignContract { cid } => contract_ref_bytes(sender, cid@),
        JackalMsg::CancelContract { cid } => contract_ref_bytes(sender, cid@),
        JackalMsg::BuyStorage {
            for_address,
            duration_days,
            bytes,
            payment_denom,
        } => storage_order_bytes(sender, for_address@, duration_days, bytes, payment_denom@),
        JackalMsg::UpgradeStorage {
            for_address,
            duration_days,
            bytes,
            payment_denom,
        } => storage_order_bytes(sender, for_address@, duration_days, bytes, payment_denom@),
        JackalMsg::PostKey { key } => post_key_bytes(sender, key@),
        JackalMsg::Delete {  } => Seq::<u8>::empty(),
    }
}

/// The wire message of a supported operation issued by `sender`.
pub open spec fn encoding_of(sender: Seq<char>, msg: JackalMsg) -> EncodedMessageView
    recommends
        msg.is_supported(),
{
    EncodedMessageView { type_url: type_url_of(msg), value: payload_of(sender, msg) }
}

/// What encoding one operation comes to: its wire message when the
/// operation is supported, the error `NotImplemented` when it is not.
pub open spec fn encodes_to(
    sender: Seq<char>,
    msg: JackalMsg,
    outcome: Result<EncodedMessage, UsbError>,
) -> bool {
    match outcome {
        Ok(encoded) => msg.is_supported() && encoded@ == encoding_of(sender, msg),
        Err(e) => !msg.is_supported() && e is NotImplemented,
    }
}

/// Encodes one operation issued by `sender`.
pub fn encode_msg(sender: &str, msg: &JackalMsg) -> (outcome: Result<EncodedMessage, UsbError>)
    ensures
        encodes_to(sender@, *msg, outcome),
{
    match msg {
        JackalMsg::MakeRoot { editors, viewers, tracking_number } => {
            let root = MsgMakeRootV2 {
                creator: sender.to_owned(),
                editors: editors.clone(),
                viewers: viewers.clone(),
                tracking_number: tracking_number.clone(),
            };
            Ok(EncodedMessage { type_url: MAKE_ROOT_TYPE_URL.to_owned(), value: root.encode_to_vec() })
        },
        JackalMsg::PostFile {
            hash_parent,
            hash_child,
            contents,
            viewers,
            editors,
            tracking_number,
        } => {
            let file = MsgPostFile {
                creator: sender.to_owned(),
                account: hash_and_hex(sender),
                hash_parent: hash_parent.clone(),
                hash_child: hash_child.clone(),
                contents: contents.clone(),
                viewers: viewers.clone(),
                editors: editors.clone(),
                tracking_number: tracking_number.clone(),
            };
            Ok(EncodedMessage { type_url: POST_FILE_TYPE_URL.to_owned(), value: file.encode_to_vec() })
        },
        JackalMsg::AddViewers { viewer_ids, viewer_keys, address, owner } => {
            let add = MsgAddViewers {
                creator: sender.to_owned(),
                viewer_ids: viewer_ids.clone(),
                viewer_keys: viewer_keys.clone(),
                address: address.clone(),
                owner: owner.clone(),
            };
            Ok(EncodedMessage { type_url: ADD_VIEWERS_TYPE_URL.to_owned(), value: add.encode_to_vec() })
        },
        JackalMsg::DeleteViewers { viewer_ids, address, owner } => {
            let delete = MsgDeleteViewers {
                creator: sender.to_owned(),
                viewer_ids: viewer_ids.clone(),
                address: address.clone(),
                owner: owner.clone(),
            };
            Ok(
                EncodedMessage {
                    type_url: DELETE_VIEWERS_TYPE_URL.to_owned(),
                    value: delete.encode_to_vec(),
                },
            )
        },
        JackalMsg::SignContract { cid } => {
            let sign = MsgSignContract { creator: sender.to_owned(), cid: cid.clone() };
            Ok(
                EncodedMessage {
                    type_url: SIGN_CONTRACT_TYPE_URL.to_owned(),
                    value: sign.encode_to_vec(),
                },
            )
        },
        JackalMsg::CancelContract { cid } => {
            let cancel = MsgCancelContract { creator: sender.to_owned(), cid: cid.clone() };
            Ok(
                EncodedMessage {
                    type_url: CANCEL_CONTRACT_TYPE_URL.to_owned(),
                    value: cancel.encode_to_vec(),
                },
            )
        },
        JackalMsg::BuyStorage { for_address, duration_days, bytes, payment_denom } => {
            let buy = MsgBuyStorage {
                creator: sender.to_owned(),
                for_address: for_address.clone(),
                duration_days: *duration_days,
                bytes: *bytes,
                payment_denom: payment_denom.clone(),
            };
            Ok(EncodedMessage { type_url: BUY_STORAGE_TYPE_URL.to_owned(), value: buy.encode_to_vec() })
        },
        JackalMsg::UpgradeStorage { for_address, duration_days, bytes, payment_denom } => {
            let upgrade = MsgUpgradeStorage {
                creator: sender.to_owned(),
                for_address: for_address.clone(),
                duration_days: *duration_days,
                bytes: *bytes,
                payment_denom: payment_denom.clone(),
            };
            Ok(
                EncodedMessage {
                    type_url: UPGRADE_STORAGE_TYPE_URL.to_owned(),
                    value: upgrade.encode_to_vec(),
                },
            )
        },
        JackalMsg::PostKey { key } => {
            let post = MsgPostKey { creator: sender.to_owned(), key: key.clone() };
            Ok(EncodedMessage { type_url: POST_KEY_TYPE_URL.to_owned(), value: post.encode_to_vec() })
        },
        JackalMsg::Delete {  } => Err(UsbError::NotImplemented),
    }
}

/// The plain values of a list of encoded messages, in order.
pub open spec fn messages_view(msgs: Seq<EncodedMessage>) -> Seq<EncodedMessageView> {
    Seq::new(msgs.len(), |i: int| msgs[i]@)
}

/// Every operation of the batch has a message.
pub open spec fn all_supported(msgs: Seq<JackalMsg>) -> bool {
    forall|i: int| 0 <= i < msgs.len() ==> (#[trigger] msgs[i]).is_supported()
}

/// The wire messages of a batch issued by `sender`: one per operation, in
/// the order of the batch.
pub open spec fn batch_encoding(sender: Seq<char>, msgs: Seq<JackalMsg>) -> Seq<
    EncodedMessageView,
>
    recommends
        all_supported(msgs),
{
    Seq::new(msgs.len(), |i: int| encoding_of(sender, msgs[i]))
}

/// What encoding a batch comes to: the wire messages of all its operations
/// in order when every one is supported; otherwise no message at all and the
/// error `NotImplemented`, wherever the unsupported operation stands.
pub open spec fn batch_encodes_to(
    sender: Seq<char>,
    msgs: Seq<JackalMsg>,
    outcome: Result<Vec<EncodedMessage>, UsbError>,
) -> bool {
    match outcome {
        Ok(encoded) => all_supported(msgs) && messages_view(encoded@) == batch_encoding(
            sender,
            msgs,
        ),
        Err(e) => !all_supported(msgs) && e is NotImplemented,
    }
}

/// Encodes a batch issued by `sender`, operation by operation, in order. The
/// first unsupported operation fails the whole batch.
pub fn encode_batch(sender: &str, msgs: &Vec<JackalMsg>) -> (outcome: Result<
    Vec<EncodedMessage>,
    UsbError,
>)
    ensures
        batch_encodes_to(sender@, msgs@, outcome),
{
    let mut encoded: Vec<EncodedMessage> = Vec::new();
    let mut i: usize = 0;
    while i < msgs.len()
        invariant
            i <= msgs.len(),
            encoded@.len() == i,
            all_supported(msgs@.take(i as int)),
            messages_view(encoded@) == batch_encoding(sender@, msgs@.take(i as int)),
        decreases msgs.len() - i,
    {
        match encode_msg(sender, &msgs[i]) {
            Ok(message) => {
                proof {
                    let done = msgs@.take(i as int);
                    let next = msgs@.take(i + 1);
                    assert forall|k: int| 0 <= k < next.len() implies (
                    #[trigger] next[k]).is_supported() by {
                        if k < i {
                            assert(done[k].is_supported());
                        }
                    }
                    assert forall|k: int| 0 <= k < next.len() implies messages_view(
                        encoded@.push(message),
                    )[k] == batch_encoding(sender@, next)[k] by {
                        if k < i {
                            assert(messages_view(encoded@)[k] == batch_encoding(sender@, done)[k]);
                        }
                    }
                    assert(messages_view(encoded@.push(message)) =~= batch_encoding(
                        sender@,
                        next,
                    ));
                }
                encoded.push(message);
            },
            Err(e) => {
                assert(!msgs@[i as int].is_supported());
                return Err(e);
            },
        }
        i += 1;
    }
    assert(msgs@.take(i as int) =~= msgs@);
    Ok(encoded)
}

} // verus!
