//! A multi-party authorization engine: a group of owner identities jointly
//! controls the right to execute operations, gated by a configurable
//! approval threshold. A quorum of owners must approve a fully-specified
//! operation before it may run, exactly once.
//!
//! The library is the authorization core: record types and their
//! invariants, the deterministic addressing of records, and the processor
//! whose transitions are each pinned to a mathematical specification.
//! Storage allocation, request transport and the delegated invocation
//! itself are the surrounding runtime's business.

mod addr;
mod error;
mod instruction;
mod laws;
mod processor;
mod pubkey;
mod state;

pub use addr::{
    get_multisig_address, get_transaction_address, group_address_of, group_tag, pda_of,
    transaction_address_of, transaction_tag,
};
pub use error::MultisigError;
pub use instruction::MultisigInstruction;
pub use laws::{
    lemma_approve_changes_only_signers, lemma_approve_idempotent,
    lemma_approve_rejects_unknown_owner,
    lemma_create_group_accepts_valid, lemma_create_group_preserves_wf,
    lemma_create_group_rejects_bad_threshold, lemma_create_group_rejects_duplicates,
    lemma_create_transaction_preserves_wf, lemma_delete_pending_preserves_wf,
    lemma_execute_at_most_once, lemma_execute_preserves_wf, lemma_execute_sets_latch,
    lemma_reconfigure_blocked_while_pending, lemma_reconfigure_preserves_wf,
    lemma_reconfigure_replaces_wholesale, lemma_without_keys_len,
};
pub use processor::{
    accounts_match, accounts_structurally_match, assert_unique_owners, check_config,
    contains_key, count_signers, count_true, find_key_index, first_index_of,
    lemma_first_index_of, mark_authority, spec_approve, spec_create_multisig,
    spec_create_transaction, spec_delete_pending_transactions, spec_execute_transaction,
    spec_upgrade_multisig, without_keys, InstructionPlan, InstructionPlanView, Processor,
};
pub use pubkey::Pubkey;
pub use state::{
    config_error, has_duplicate, threshold_ok, Multisig, MultisigView, Transaction,
    TransactionAccount, TransactionView,
};

use vstd::prelude::*;

verus! {

/// Smallest approval threshold a group may configure.
pub const MIN_SIGNERS: u64 = 1;

/// Largest owner set a group record can hold.
pub const MAX_SIGNERS: u64 = 11;

/// Maximum number of pending transactions
pub const MAX_TRANSACTIONS: usize = 10;

} // verus!
