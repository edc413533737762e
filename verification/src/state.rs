use vstd::prelude::*;

use crate::error::MultisigError;
use crate::pubkey::Pubkey;
use crate::{MAX_SIGNERS, MAX_TRANSACTIONS, MIN_SIGNERS};

verus! {

/// One account taking part in a proposed operation.
#[derive(Clone, Copy, Debug, PartialEq, Eq, Structural)]
pub struct TransactionAccount {
    pub pubkey: Pubkey,
    pub is_signer: bool,
    pub is_writable: bool,
}

/// The persisted configuration of one multisig group.
#[derive(Clone, Debug, PartialEq)]
pub struct Multisig {
    /// Guards against operating on an uncreated record.
    pub is_initialized: bool,
    /// The seed this record's own address was derived from; kept so later
    /// requests can re-derive and check the address.
    pub seed: u128,
    /// Set of custodians
    pub owners: Vec<Pubkey>,
    /// Required number of signers
    pub threshold: u64,
    /// Addresses of outstanding, unexecuted proposals of this group.
    pub pending_transactions: Vec<Pubkey>,
}

/// The persisted description of one proposed operation, together with the
/// approvals it has collected and its one-way execution latch.
#[derive(Clone, Debug, PartialEq)]
pub struct Transaction {
    /// Guards against operating on an uncreated record.
    pub is_initialized: bool,
    /// The multisig account this transaction belongs to.
    pub multisig: Pubkey,
    /// Target program to execute against.
    pub program_id: Pubkey,
    /// Accounts required for the transaction.
    pub accounts: Vec<TransactionAccount>,
    /// Instruction data for the transaction.
    pub data: Vec<u8>,
    /// signers[index] is true if multisig.owners[index] signed the transaction.
    pub signers: Vec<bool>,
    /// Boolean ensuring one time execution.
    pub did_execute: bool,
}

/// Mathematical value of a [`Multisig`] record.
pub struct MultisigView {
    pub is_initialized: bool,
    pub seed: u128,
    pub owners: Seq<Pubkey>,
    pub threshold: u64,
    pub pending_transactions: Seq<Pubkey>,
}

/// Mathematical value of a [`Transaction`] record.
pub struct TransactionView {
    pub is_initialized: bool,
    pub multisig: Pubkey,
    pub program_id: Pubkey,
    pub accounts: Seq<TransactionAccount>,
    pub data: Seq<u8>,
    pub signers: Seq<bool>,
    pub did_execute: bool,
}

impl View for Multisig {
    type V = MultisigView;

    open spec fn view(&self) -> MultisigView {
        MultisigView {
            is_initialized: self.is_initialized,
            seed: self.seed,
            owners: self.owners@,
            threshold: self.threshold,
            pending_transactions: self.pending_transactions@,
        }
    }
}

impl View for Transaction {
    type V = TransactionView;

    open spec fn view(&self) -> TransactionView {
        TransactionView {
            is_initialized: self.is_initialized,
            multisig: self.multisig,
            program_id: self.program_id,
            accounts: self.accounts@,
            data: self.data@,
            signers: self.signers@,
            did_execute: self.did_execute,
        }
    }
}

/// Whether some owner appears twice in the sequence.
pub open spec fn has_duplicate(owners: Seq<Pubkey>) -> bool {
    exists|i: int, j: int| 0 <= i < j < owners.len() && owners[i] == owners[j]
}

/// Whether `threshold` is acceptable for an owner set of `n` members:
/// at least the minimum, at most the maximum, and reachable by the owners.
pub open spec fn threshold_ok(threshold: u64, n: nat) -> bool {
    MIN_SIGNERS <= threshold <= MAX_SIGNERS && threshold as nat <= n
}

/// The first error, if any, in a proposed `(owners, threshold)`
/// configuration, in the order the processor checks them. With no owners no
/// threshold can satisfy the threshold rule, so an empty owner set is in
/// fact always reported as `InvalidThreshold` by the earlier check;
/// `EmptyOwnerSet` is kept for the rule it names.
pub open spec fn config_error(owners: Seq<Pubkey>, threshold: u64) -> Option<MultisigError> {
    if has_duplicate(owners) {
        Some(MultisigError::DuplicateOwner)
    } else if !threshold_ok(threshold, owners.len()) {
        Some(MultisigError::InvalidThreshold)
    } else if owners.len() == 0 {
        Some(MultisigError::EmptyOwnerSet)
    } else if owners.len() > MAX_SIGNERS {
        Some(MultisigError::TooManyOwners)
    } else {
        None
    }
}

impl MultisigView {
    /// Invariant of an initialized group record: a valid configuration and a
    /// pending index within capacity.
    pub open spec fn wf(self) -> bool {
        self.is_initialized ==> {
            &&& config_error(self.owners, self.threshold) is None
            &&& self.pending_transactions.len() <= MAX_TRANSACTIONS
        }
    }
}

impl Multisig {
    pub fn is_initialized(&self) -> (r: bool)
        ensures
            r == self@.is_initialized,
    {
        self.is_initialized
    }
}

impl Transaction {
    pub fn is_initialized(&self) -> (r: bool)
        ensures
            r == self@.is_initialized,
    {
        self.is_initialized
    }
}

} // verus!
