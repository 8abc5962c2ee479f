//! What can go wrong while a batch is encoded and wrapped.

use vstd::prelude::*;

verus! {

/// Declares `cosmwasm_std::StdError`, the serialiser's error, as a type
/// that is carried through unopened.
#[verifier::external_type_specification]
#[verifier::external_body]
pub struct ExStdError(cosmwasm_std::StdError);

/// Declares `abstract_std::AbstractError`, the account framework's error,
/// as a type that is carried through unopened.
#[verifier::external_type_specification]
#[verifier::external_body]
pub struct ExAbstractError(abstract_std::AbstractError);

/// Why a call was refused.
#[derive(Debug)]
pub enum UsbError {
    /// A value could not be serialised.
    Std(cosmwasm_std::StdError),
    /// A name of the account framework was malformed.
    Abstract(abstract_std::AbstractError),
    /// The batch holds an operation that has no message yet.
    NotImplemented,
    /// The caller is not the owner that the operation asks for.
    Unauthorized,
    /// A reply is asked for under a token whose earlier call has not
    /// completed yet.
    ReplyPending,
}

} // verus!
