//! Shared shapes for the dispatch framework: the error type every pallet
//! operation reports, and the block structures the executor consumes.

use vstd::prelude::*;

verus! {

/// Every way a pallet operation or the block executor can fail.
///
/// Errors are plain descriptive values, never used for control flow across
/// blocks: a pallet failure is isolated per extrinsic, while
/// `InvalidBlockNumber` is structural and aborts the whole block.
#[derive(Clone, Copy, Debug, PartialEq, Eq, Structural)]
pub enum DispatchError {
    /// A transfer would drive the sender's balance below zero.
    InsufficientFunds,
    /// A transfer would drive the recipient's balance past the maximum.
    Overflow,
    /// The content key is already present in the claim registry.
    AlreadyClaimed,
    /// The caller does not own the claim it tries to revoke.
    NotOwner,
    /// The content key is absent from the claim registry.
    ClaimNotFound,
    /// A block header's number is not the successor of the current number.
    InvalidBlockNumber,
}

/// The fixed diagnostic text of each error, as a sequence of characters.
pub open spec fn spec_message(e: DispatchError) -> Seq<char> {
    match e {
        DispatchError::InsufficientFunds => "Not enough funds."@,
        DispatchError::Overflow => "Overflow"@,
        DispatchError::AlreadyClaimed => "this content is already claimed"@,
        DispatchError::NotOwner => "this content is owned by someone else"@,
        DispatchError::ClaimNotFound => "claim does not exist"@,
        DispatchError::InvalidBlockNumber => "block number does not match what is expected"@,
    }
}

impl DispatchError {
    /// The fixed diagnostic text of this error.
    pub fn message(&self) -> (s: &'static str)
        ensures
            s@ == spec_message(*self),
    {
        match self {
            DispatchError::InsufficientFunds => "Not enough funds.",
            DispatchError::Overflow => "Overflow",
            DispatchError::AlreadyClaimed => "this content is already claimed",
            DispatchError::NotOwner => "this content is owned by someone else",
            DispatchError::ClaimNotFound => "claim does not exist",
            DispatchError::InvalidBlockNumber => "block number does not match what is expected",
        }
    }
}

/// The result of dispatching one call to a pallet.
pub type DispatchResult = Result<(), DispatchError>;

/// A block header: carries the metadata of a block, here only its number.
pub struct Header<BlockNumber> {
    pub block_number: BlockNumber,
}

/// An extrinsic: one caller-attributed call applied during block
/// execution.
pub struct Extrinsic<Caller, Call> {
    pub caller: Caller,
    pub call: Call,
}

/// A block: a header plus an ordered sequence of extrinsics. The order is
/// the execution order and is significant.
pub struct Block<Header, Extrinsic> {
    pub header: Header,
    pub extrinsics: Vec<Extrinsic>,
}

/// The structured record of one failed extrinsic: which block and which
/// position within it, and the error the dispatch reported. Failures are
/// diagnostics, never a reason to stop the block.
#[derive(Clone, Copy, Debug, PartialEq, Eq, Structural)]
pub struct ExtrinsicFailure {
    pub block_number: u32,
    pub index: usize,
    pub error: DispatchError,
}

} // verus!
