//! Messages of the storage module: buying, upgrading, signing and
//! cancelling storage contracts.

use vstd::prelude::*;
use crate::wire::{plain_string, plain_uint64, put_string, put_uint64};

verus! {

/// The bytes of a storage purchase: creator, beneficiary, duration in days,
/// size in bytes and payment denomination, as fields 1 to 5.
pub open spec fn storage_order_bytes(
    creator: Seq<char>,
    for_address: Seq<char>,
    duration_days: u64,
    bytes: u64,
    payment_denom: Seq<char>,
) -> Seq<u8> {
    plain_string(1, creator) + plain_string(2, for_address) + plain_uint64(3, duration_days)
        + plain_uint64(4, bytes) + plain_string(5, payment_denom)
}

/// The bytes of a message about one storage contract: creator and contract
/// id, as fields 1 and 2.
pub open spec fn contract_ref_bytes(creator: Seq<char>, cid: Seq<char>) -> Seq<u8> {
    plain_string(1, creator) + plain_string(2, cid)
}

/// Buys storage space for an address.
#[derive(Clone, Debug, PartialEq, Eq)]
pub struct MsgBuyStorage {
    /// Address of the account that pays.
    pub creator: String,
    /// Address that receives the storage.
    pub for_address: String,
    /// How long the storage is bought for, in days.
    pub duration_days: u64,
    /// How much storage is bought, in bytes.
    pub bytes: u64,
    /// Denomination the purchase is paid in.
    pub payment_denom: String,
}

impl MsgBuyStorage {
    /// The message's protobuf encoding.
    pub open spec fn wire_bytes(&self) -> Seq<u8> {
        storage_order_bytes(
            self.creator@,
            self.for_address@,
            self.duration_days,
            self.bytes,
            self.payment_denom@,
        )
    }

    /// Encodes the message into a fresh buffer.
    pub fn encode_to_vec(&self) -> (out: Vec<u8>)
        ensures
            out@ == self.wire_bytes(),
    {
        let mut buf: Vec<u8> = Vec::new();
        put_string(1, &self.creator, &mut buf);
        put_string(2, &self.for_address, &mut buf);
        put_uint64(3, self.duration_days, &mut buf);
        put_uint64(4, self.bytes, &mut buf);
        put_string(5, &self.payment_denom, &mut buf);
        buf
    }
}

/// Signs a storage contract.
#[derive(Clone, Debug, PartialEq, Eq)]
pub struct MsgSignContract {
    /// Address of the signer.
    pub creator: String,
    /// Id of the contract.
    pub cid: String,
}

impl MsgSignContract {
    /// The message's protobuf encoding.
    pub open spec fn wire_bytes(&self) -> Seq<u8> {
        contract_ref_bytes(self.creator@, self.cid@)
    }

    /// Encodes the message into a fresh buffer.
    pub fn encode_to_vec(&self) -> (out: Vec<u8>)
        ensures
            out@ == self.wire_bytes(),
    {
        let mut buf: Vec<u8> = Vec::new();
        put_string(1, &self.creator, &mut buf);
        put_string(2, &self.cid, &mut buf);
        buf
    }
}

/// Cancels an active storage contract.
#[derive(Clone, Debug, PartialEq, Eq)]
pub struct MsgCancelContract {
    /// Address of the contract's owner.
    pub creator: String,
    /// Id of the contract.
    pub cid: String,
}

impl MsgCancelContract {
    /// The message's protobuf encoding.
    pub open spec fn wire_bytes(&self) -> Seq<u8> {
        contract_ref_bytes(self.creator@, self.cid@)
    }

    /// Encodes the message into a fresh buffer.
    pub fn encode_to_vec(&self) -> (out: Vec<u8>)
        ensures
            out@ == self.wire_bytes(),
    {
        let mut buf: Vec<u8> = Vec::new();
        put_string(1, &self.creator, &mut buf);
        put_string(2, &self.cid, &mut buf);
        buf
    }
}

/// Upgrades the storage space of an address.
#[derive(Clone, Debug, PartialEq, Eq)]
pub struct MsgUpgradeStorage {
    /// Address of the account that pays.
    pub creator: String,
    /// Address whose storage is upgraded.
    pub for_address: String,
    /// How long the upgraded storage lasts, in days.
    pub duration_days: u64,
    /// The new size of the storage, in bytes.
    pub bytes: u64,
    /// Denomination the upgrade is paid in.
    pub payment_denom: String,
}

impl MsgUpgradeStorage {
    /// The message's protobuf encoding.
    pub open spec fn wire_bytes(&self) -> Seq<u8> {
        storage_order_bytes(
            self.creator@,
            self.for_address@,
            self.duration_days,
            self.bytes,
            self.payment_denom@,
        )
    }

    /// Encodes the message into a fresh buffer.
    pub fn encode_to_vec(&self) -> (out: Vec<u8>)
        ensures
            out@ == self.wire_bytes(),
    {
        let mut buf: Vec<u8> = Vec::new();
        put_string(1, &self.creator, &mut buf);
        put_string(2, &self.for_address, &mut buf);
        put_uint64(3, self.duration_days, &mut buf);
        put_uint64(4, self.bytes, &mut buf);
        put_string(5, &self.payment_denom, &mut buf);
        buf
    }
}

} // verus!
