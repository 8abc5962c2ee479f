//! The closed set of storage operations that an account may issue.

use vstd::prelude::*;

verus! {

/// One operation against the remote storage network. Fields are carried as
/// given: nothing about them is checked before they are encoded.
#[derive(Clone, Debug, PartialEq, Eq)]
pub enum JackalMsg {
    /// Adds viewers to a file.
    AddViewers { viewer_ids: String, viewer_keys: String, address: String, owner: String },
    /// Buys storage space.
    BuyStorage { for_address: String, duration_days: u64, bytes: u64, payment_denom: String },
    /// Upgrades storage space.
    UpgradeStorage { for_address: String, duration_days: u64, bytes: u64, payment_denom: String },
    /// Cancels an active storage contract by its id.
    CancelContract { cid: String },
    /// Deletes a file. The encoder has no message for it yet.
    Delete {  },
    /// Creates the root folder of the account's storage.
    MakeRoot { editors: String, viewers: String, tracking_number: String },
    /// Creates and saves a file or folder.
    PostFile {
        hash_parent: String,
        hash_child: String,
        contents: String,
        viewers: String,
        editors: String,
        tracking_number: String,
    },
    /// Posts a public encryption key.
    PostKey { key: String },
    /// Removes viewers from a file.
    DeleteViewers { viewer_ids: String, address: String, owner: String },
    /// Signs a storage contract by its id.
    SignContract { cid: String },
}

/// The kinds of operation, without their fields.
#[derive(Clone, Copy, Debug, PartialEq, Eq, Structural)]
pub enum Operation {
    AddViewers,
    BuyStorage,
    UpgradeStorage,
    CancelContract,
    Delete,
    MakeRoot,
    PostFile,
    PostKey,
    DeleteViewers,
    SignContract,
}

impl JackalMsg {
    /// The kind of this operation.
    pub open spec fn operation(&self) -> Operation {
        match self {
            JackalMsg::AddViewers { .. } => Operation::AddViewers,
            JackalMsg::BuyStorage { .. } => Operation::BuyStorage,
            JackalMsg::UpgradeStorage { .. } => Operation::UpgradeStorage,
            JackalMsg::CancelContract { .. } => Operation::CancelContract,
            JackalMsg::Delete {  } => Operation::Delete,
            JackalMsg::MakeRoot { .. } => Operation::MakeRoot,
            JackalMsg::PostFile { .. } => Operation::PostFile,
            JackalMsg::PostKey { .. } => Operation::PostKey,
            JackalMsg::DeleteViewers { .. } => Operation::DeleteViewers,
            JackalMsg::SignContract { .. } => Operation::SignContract,
        }
    }

    /// Whether two operations are of one kind and hold the same texts and
    /// numbers, field by field.
    pub open spec fn same_fields(&self, other: &JackalMsg) -> bool {
        match (*self, *other) {
            (
                JackalMsg::AddViewers { viewer_ids, viewer_keys, address, owner },
                JackalMsg::AddViewers {
                    viewer_ids: viewer_ids2,
                    viewer_keys: viewer_keys2,
                    address: address2,
                    owner: owner2,
                },
            ) => viewer_ids@ == viewer_ids2@ && viewer_keys@ == viewer_keys2@ && address@
                == address2@ && owner@ == owner2@,
            (
                JackalMsg::BuyStorage { for_address, duration_days, bytes, payment_denom },
                JackalMsg::BuyStorage {
                    for_address: for_address2,
                    duration_days: duration_days2,
                    bytes: bytes2,
                    payment_denom: payment_denom2,
                },
            ) => for_address@ == for_address2@ && duration_days == duration_days2 && bytes
                == bytes2 && payment_denom@ == payment_denom2@,
            (
                JackalMsg::UpgradeStorage { for_address, duration_days, bytes, payment_denom },
                JackalMsg::UpgradeStorage {
                    for_address: for_address2,
                    duration_days: duration_days2,
                    bytes: bytes2,
                    payment_denom: payment_denom2,
                },
            ) => for_address@ == for_address2@ && duration_days == duration_days2 && bytes
                == bytes2 && payment_denom@ == payment_denom2@,
            (JackalMsg::CancelContract { cid }, JackalMsg::CancelContract { cid: cid2 }) => cid@
                == cid2@,
            (JackalMsg::Delete {  }, JackalMsg::Delete {  }) => true,
            (
                JackalMsg::MakeRoot { editors, viewers, tracking_number },
                JackalMsg::MakeRoot {
                    editors: editors2,
                    viewers: viewers2,
                    tracking_number: tracking_number2,
                },
            ) => editors@ == editors2@ && viewers@ == viewers2@ && tracking_number@
                == tracking_number2@,
            (
                JackalMsg::PostFile {
                    hash_parent,
                    hash_child,
                    contents,
                    viewers,
                    editors,
                    tracking_number,
                },
                JackalMsg::PostFile {
                    hash_parent: hash_parent2,
                    hash_child: hash_child2,
                    contents: contents2,
                    viewers: viewers2,
                    editors: editors2,
                    tracking_number: tracking_number2,
                },
            ) => hash_parent@ == hash_parent2@ && hash_child@ == hash_child2@ && contents@
                == contents2@ && viewers@ == viewers2@ && editors@ == editors2@
                && tracking_number@ == tracking_number2@,
            (JackalMsg::PostKey { key }, JackalMsg::PostKey { key: key2 }) => key@ == key2@,
            (
                JackalMsg::DeleteViewers { viewer_ids, address, owner },
                JackalMsg::DeleteViewers {
                    viewer_ids: viewer_ids2,
                    address: address2,
                    owner: owner2,
                },
            ) => viewer_ids@ == viewer_ids2@ && address@ == address2@ && owner@ == owner2@,
            (JackalMsg::SignContract { cid }, JackalMsg::SignContract { cid: cid2 }) => cid@
                == cid2@,
            _ => false,
        }
    }

    /// Whether the encoder has a message for this operation.
    pub open spec fn is_supported(&self) -> bool {
        !(self is Delete)
    }

    /// Tells whether the encoder has a message for this operation.
    pub fn supported(&self) -> (b: bool)
        ensures
            b == self.is_supported(),
    {
        match self {
            JackalMsg::Delete {  } => false,
            _ => true,
        }
    }
}

} // verus!
