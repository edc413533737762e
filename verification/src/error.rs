use vstd::prelude::*;

verus! {

/// Every way a request can be rejected.
///
/// Input-validation errors (`DuplicateOwner`, `InvalidThreshold`,
/// `EmptyOwnerSet`, `TooManyOwners`, `AddressMismatch`, `MalformedRequest`)
/// are raised before any record is changed. Authorization errors
/// (`UnknownOwner`, `GroupMismatch`, `MissingSignature`) reject the whole
/// request. State errors (`AlreadyExecuted`, `NotEnoughSigners`,
/// `PendingTransactionsExist`, `TooManyPending`, `UnknownProposal`) reflect
/// the records' current lifecycle stage.
#[derive(Clone, Copy, Debug, PartialEq, Eq, Structural)]
pub enum MultisigError {
    /// The caller-declared record address disagrees with the derived one.
    AddressMismatch,
    /// An owner appears twice in the proposed owner set.
    DuplicateOwner,
    /// The threshold is below the minimum, above the owner count, or above
    /// the maximum number of signers.
    InvalidThreshold,
    /// The proposed owner set is empty.
    EmptyOwnerSet,
    /// The proposed owner set is larger than a group record can hold.
    TooManyOwners,
    /// The request payload could not be decoded.
    MalformedRequest,
    /// The acting address is not an owner of the group.
    UnknownOwner,
    /// The proposal belongs to a different group than the one presented.
    GroupMismatch,
    /// A required co-signature is missing from the request.
    MissingSignature,
    /// The proposal has already been executed.
    AlreadyExecuted,
    /// Fewer owners have approved than the group's threshold requires.
    NotEnoughSigners,
    /// The group still has pending proposals, so it may not be reconfigured.
    PendingTransactionsExist,
    /// The group's pending-proposal index is full.
    TooManyPending,
    /// The proposal is not in the group's pending-proposal index.
    UnknownProposal,
}

} // verus!
