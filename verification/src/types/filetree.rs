//! Messages of the filetree module: roots, files, viewers and keys.

use vstd::prelude::*;
use crate::wire::{plain_string, put_string};

verus! {

/// The bytes of a root creation: creator, editors, viewers and tracking
/// number, as fields 1 to 4.
pub open spec fn make_root_bytes(
    creator: Seq<char>,
    editors: Seq<char>,
    viewers: Seq<char>,
    tracking_number: Seq<char>,
) -> Seq<u8> {
    plain_string(1, creator) + plain_string(2, editors) + plain_string(3, viewers) + plain_string(
        4,
        tracking_number,
    )
}

/// The bytes of a file post: creator, account, parent hash, child hash,
/// contents, viewers, editors and tracking number, as fields 1 to 8.
pub open spec fn post_file_bytes(
    creator: Seq<char>,
    account: Seq<char>,
    hash_parent: Seq<char>,
    hash_child: Seq<char>,
    contents: Seq<char>,
    viewers: Seq<char>,
    editors: Seq<char>,
    tracking_number: Seq<char>,
) -> Seq<u8> {
    plain_string(1, creator) + plain_string(2, account) + plain_string(3, hash_parent)
        + plain_string(4, hash_child) + plain_string(5, contents) + plain_string(6, viewers)
        + plain_string(7, editors) + plain_string(8, tracking_number)
}

/// The bytes of a viewer addition: creator, viewer ids, viewer keys, address
/// and owner, as fields 1 to 5.
pub open spec fn add_viewers_bytes(
    creator: Seq<char>,
    viewer_ids: Seq<char>,
    viewer_keys: Seq<char>,
    address: Seq<char>,
    owner: Seq<char>,
) -> Seq<u8> {
    plain_string(1, creator) + plain_string(2, viewer_ids) + plain_string(3, viewer_keys)
        + plain_string(4, address) + plain_string(5, owner)
}

/// The bytes of a viewer removal: creator, viewer ids, address and owner, as
/// fields 1 to 4.
pub open spec fn delete_viewers_bytes(
    creator: Seq<char>,
    viewer_ids: Seq<char>,
    address: Seq<char>,
    owner: Seq<char>,
) -> Seq<u8> {
    plain_string(1, creator) + plain_string(2, viewer_ids) + plain_string(3, address)
        + plain_string(4, owner)
}

/// The bytes of a key post: creator and key, as fields 1 and 2.
pub open spec fn post_key_bytes(creator: Seq<char>, key: Seq<char>) -> Seq<u8> {
    plain_string(1, creator) + plain_string(2, key)
}

/// Creates the root folder of an account's storage.
#[derive(Clone, Debug, PartialEq, Eq)]
pub struct MsgMakeRootV2 {
    /// Address of the account that owns the root.
    pub creator: String,
    /// Who may edit the root.
    pub editors: String,
    /// Who may view the root.
    pub viewers: String,
    /// Id under which the editors are tracked.
    pub tracking_number: String,
}

impl MsgMakeRootV2 {
    /// The message's protobuf encoding.
    pub open spec fn wire_bytes(&self) -> Seq<u8> {
        make_root_bytes(self.creator@, self.editors@, self.viewers@, self.tracking_number@)
    }

    /// Encodes the message into a fresh buffer.
    pub fn encode_to_vec(&self) -> (out: Vec<u8>)
        ensures
            out@ == self.wire_bytes(),
    {
        let mut buf: Vec<u8> = Vec::new();
        put_string(1, &self.creator, &mut buf);
        put_string(2, &self.editors, &mut buf);
        put_string(3, &self.viewers, &mut buf);
        put_string(4, &self.tracking_number, &mut buf);
        buf
    }
}

/// Creates and saves a file or folder.
#[derive(Clone, Debug, PartialEq, Eq)]
pub struct MsgPostFile {
    /// Address of the account that posts the file.
    pub creator: String,
    /// Content identifier of the owning account.
    pub account: String,
    /// Merkle path of the parent folder.
    pub hash_parent: String,
    /// Hash of the file's own name.
    pub hash_child: String,
    /// The file's contents.
    pub contents: String,
    /// Who may view the file.
    pub viewers: String,
    /// Who may edit the file.
    pub editors: String,
    /// Id under which the editors are tracked.
    pub tracking_number: String,
}

impl MsgPostFile {
    /// The message's protobuf encoding.
    pub open spec fn wire_bytes(&self) -> Seq<u8> {
        post_file_bytes(
            self.creator@,
            self.account@,
            self.hash_parent@,
            self.hash_child@,
            self.contents@,
            self.viewers@,
            self.editors@,
            self.tracking_number@,
        )
    }

    /// Encodes the message into a fresh buffer.
    pub fn encode_to_vec(&self) -> (out: Vec<u8>)
        ensures
            out@ == self.wire_bytes(),
    {
        let mut buf: Vec<u8> = Vec::new();
        put_string(1, &self.creator, &mut buf);
        put_string(2, &self.account, &mut buf);
        put_string(3, &self.hash_parent, &mut buf);
        put_string(4, &self.hash_child, &mut buf);
        put_string(5, &self.contents, &mut buf);
        put_string(6, &self.viewers, &mut buf);
        put_string(7, &self.editors, &mut buf);
        put_string(8, &self.tracking_number, &mut buf);
        buf
    }
}

/// Adds viewers to a file.
#[derive(Clone, Debug, PartialEq, Eq)]
pub struct MsgAddViewers {
    /// Address of the account that changes the viewers.
    pub creator: String,
    /// Ids of the viewers to add.
    pub viewer_ids: String,
    /// Keys of the viewers to add.
    pub viewer_keys: String,
    /// Merkle address of the file.
    pub address: String,
    /// Content identifier of the file's owner.
    pub owner: String,
}

impl MsgAddViewers {
    /// The message's protobuf encoding.
    pub open spec fn wire_bytes(&self) -> Seq<u8> {
        add_viewers_bytes(
            self.creator@,
            self.viewer_ids@,
            self.viewer_keys@,
            self.address@,
            self.owner@,
        )
    }

    /// Encodes the message into a fresh buffer.
    pub fn encode_to_vec(&self) -> (out: Vec<u8>)
        ensures
            out@ == self.wire_bytes(),
    {
        let mut buf: Vec<u8> = Vec::new();
        put_string(1, &self.creator, &mut buf);
        put_string(2, &self.viewer_ids, &mut buf);
        put_string(3, &self.viewer_keys, &mut buf);
        put_string(4, &self.address, &mut buf);
        put_string(5, &self.owner, &mut buf);
        buf
    }
}

/// Removes viewers from a file.
#[derive(Clone, Debug, PartialEq, Eq)]
pub struct MsgDeleteViewers {
    /// Address of the account that changes the viewers.
    pub creator: String,
    /// Ids of the viewers to remove.
    pub viewer_ids: String,
    /// Merkle address of the file.
    pub address: String,
    /// Content identifier of the file's owner.
    pub owner: String,
}

impl MsgDeleteViewers {
    /// The message's protobuf encoding.
    pub open spec fn wire_bytes(&self) -> Seq<u8> {
        delete_viewers_bytes(self.creator@, self.viewer_ids@, self.address@, self.owner@)
    }

    /// Encodes the message into a fresh buffer.
    pub fn encode_to_vec(&self) -> (out: Vec<u8>)
        ensures
            out@ == self.wire_bytes(),
    {
        let mut buf: Vec<u8> = Vec::new();
        put_string(1, &self.creator, &mut buf);
        put_string(2, &self.viewer_ids, &mut buf);
        put_string(3, &self.address, &mut buf);
        put_string(4, &self.owner, &mut buf);
        buf
    }
}

/// Posts a public encryption key for an account.
#[derive(Clone, Debug, PartialEq, Eq)]
pub struct MsgPostKey {
    /// Address of the key's owner.
    pub creator: String,
    /// The public key.
    pub key: String,
}

impl MsgPostKey {
    /// The message's protobuf encoding.
    pub open spec fn wire_bytes(&self) -> Seq<u8> {
        post_key_bytes(self.creator@, self.key@)
    }

    /// Encodes the message into a fresh buffer.
    pub fn encode_to_vec(&self) -> (out: Vec<u8>)
        ensures
            out@ == self.wire_bytes(),
    {
        let mut buf: Vec<u8> = Vec::new();
        put_string(1, &self.creator, &mut buf);
        put_string(2, &self.key, &mut buf);
        buf
    }
}

} // verus!
