use vstd::prelude::*;

use crate::addr::group_address_of;
use crate::error::MultisigError;
use crate::processor::{
    first_index_of, lemma_first_index_of, spec_approve, spec_create_multisig,
    spec_create_transaction, spec_delete_pending_transactions, spec_execute_transaction,
    spec_upgrade_multisig, without_keys, InstructionPlanView,
};
use crate::pubkey::Pubkey;
use crate::state::{config_error, has_duplicate, MultisigView, TransactionAccount, TransactionView};
use crate::{MAX_SIGNERS, MIN_SIGNERS};

verus! {

/// Group creation accepts every valid configuration: for distinct owners and
/// a threshold between the minimum and the owner count, with the owner count
/// within capacity and the declared address the derived one, the persisted
/// record reflects the request exactly and starts with no pending proposals.
pub proof fn lemma_create_group_accepts_valid(
    seed: u128,
    declared_address: Pubkey,
    owners: Seq<Pubkey>,
    threshold: u64,
)
    ensures
        (group_address_of(seed) == Some(declared_address) && !has_duplicate(owners)
            && MIN_SIGNERS <= threshold && threshold as int <= owners.len() && owners.len()
            <= MAX_SIGNERS) ==> spec_create_multisig(seed, declared_address, owners, threshold)
            == Ok::<MultisigView, MultisigError>(
            MultisigView {
                is_initialized: true,
                seed,
                owners,
                threshold,
                pending_transactions: Seq::empty(),
            },
        ),
{
}

/// Group creation rejects a repeated owner with `DuplicateOwner`, whatever
/// the threshold.
pub proof fn lemma_create_group_rejects_duplicates(
    seed: u128,
    declared_address: Pubkey,
    owners: Seq<Pubkey>,
    threshold: u64,
)
    ensures
        (group_address_of(seed) == Some(declared_address) && has_duplicate(owners))
            ==> spec_create_multisig(seed, declared_address, owners, threshold)
            == Err::<MultisigView, MultisigError>(MultisigError::DuplicateOwner),
{
}

/// Group creation rejects with `InvalidThreshold` a threshold below the
/// minimum, above the owner count, or above the signer capacity.
pub proof fn lemma_create_group_rejects_bad_threshold(
    seed: u128,
    declared_address: Pubkey,
    owners: Seq<Pubkey>,
    threshold: u64,
)
    ensures
        (group_address_of(seed) == Some(declared_address) && !has_duplicate(owners) && (threshold
            < MIN_SIGNERS || threshold as int > owners.len() || threshold > MAX_SIGNERS))
            ==> spec_create_multisig(seed, declared_address, owners, threshold)
            == Err::<MultisigView, MultisigError>(MultisigError::InvalidThreshold),
{
}

/// Approval by an address that is not an owner of the group fails with
/// `UnknownOwner`; the paired executable contract adds that the proposal
/// record is then left unchanged.
pub proof fn lemma_approve_rejects_unknown_owner(
    m: MultisigView,
    presented_group: Pubkey,
    t: TransactionView,
    approver: Pubkey,
)
    ensures
        (t.multisig == presented_group && !m.owners.contains(approver)) ==> spec_approve(
            m,
            presented_group,
            t,
            approver,
            true,
        ) == Err::<TransactionView, MultisigError>(MultisigError::UnknownOwner),
{
}

/// Approving is idempotent: a second approval by the same owner returns the
/// proposal record the first approval produced, bit for bit.
pub proof fn lemma_approve_idempotent(
    m: MultisigView,
    presented_group: Pubkey,
    t: TransactionView,
    approver: Pubkey,
)
    requires
        t.signers.len() == m.owners.len(),
    ensures
        spec_approve(m, presented_group, t, approver, true) matches Ok(t1) ==> spec_approve(
            m,
            presented_group,
            t1,
            approver,
            true,
        ) == Ok::<TransactionView, MultisigError>(t1),
{
    let s = spec_approve(m, presented_group, t, approver, true);
    if s is Ok {
        let t1 = s.unwrap();
        lemma_first_index_of(m.owners, approver);
        let idx = first_index_of(m.owners, approver);
        assert(0 <= idx < t.signers.len());
        let s2 = spec_approve(m, presented_group, t1, approver, true);
        assert forall|j: int| 0 <= j < t1.signers.len() implies s2.unwrap().signers[j]
            == t1.signers[j] by {
            if j != idx {
                assert(t1.signers[j] == t.signers[j]);
            }
        }
        assert(s2.unwrap().signers =~= t1.signers);
        assert(s2.unwrap() =~= t1);
    }
}

/// A proposal executes at most once: on a proposal whose execution latch is
/// already set, execution fails with `AlreadyExecuted`, and the paired
/// executable contract adds that no operation is handed out and both records
/// are left unchanged.
pub proof fn lemma_execute_at_most_once(
    m: MultisigView,
    presented_group: Pubkey,
    t: TransactionView,
    tx_address: Pubkey,
    supplied: Seq<TransactionAccount>,
)
    ensures
        (group_address_of(m.seed) == Some(presented_group) && t.multisig == presented_group
            && t.did_execute) ==> spec_execute_transaction(
            m,
            presented_group,
            t,
            tx_address,
            supplied,
        ) == Err::<(MultisigView, TransactionView, InstructionPlanView), MultisigError>(
            MultisigError::AlreadyExecuted,
        ),
{
}

/// A successful execution sets the proposal's one-way latch and touches
/// nothing else about the operation it describes; together with
/// [`lemma_execute_at_most_once`] this makes execution of one proposal
/// possible at most once.
pub proof fn lemma_execute_sets_latch(
    m: MultisigView,
    presented_group: Pubkey,
    t: TransactionView,
    tx_address: Pubkey,
    supplied: Seq<TransactionAccount>,
)
    ensures
        spec_execute_transaction(m, presented_group, t, tx_address, supplied) matches Ok(
            (mv, tv, plan),
        ) ==> tv == (TransactionView { did_execute: true, ..t }),
{
}

/// Approval changes nothing of a proposal but its approval bits: the
/// described operation, its group reference and the execution latch all
/// stay as they were.
pub proof fn lemma_approve_changes_only_signers(
    m: MultisigView,
    presented_group: Pubkey,
    t: TransactionView,
    approver: Pubkey,
    approver_signed: bool,
)
    requires
        t.signers.len() == m.owners.len(),
    ensures
        spec_approve(m, presented_group, t, approver, approver_signed) matches Ok(t1) ==> {
            &&& t1.is_initialized == t.is_initialized
            &&& t1.multisig == t.multisig
            &&& t1.program_id == t.program_id
            &&& t1.accounts == t.accounts
            &&& t1.data == t.data
            &&& t1.did_execute == t.did_execute
            &&& t1.signers.len() == t.signers.len()
        },
{
    lemma_first_index_of(m.owners, approver);
}

/// Reconfiguration is refused with `PendingTransactionsExist` while any
/// proposal is still pending, however valid the new configuration is.
pub proof fn lemma_reconfigure_blocked_while_pending(
    m: MultisigView,
    presented_address: Pubkey,
    owners: Seq<Pubkey>,
    threshold: u64,
)
    ensures
        (group_address_of(m.seed) == Some(presented_address) && m.pending_transactions.len() != 0)
            ==> spec_upgrade_multisig(m, presented_address, true, owners, threshold)
            == Err::<MultisigView, MultisigError>(MultisigError::PendingTransactionsExist),
{
}

/// When no proposal is pending and the new configuration is valid,
/// reconfiguration replaces the owners and threshold wholesale in one step,
/// leaving the seed and the (empty) pending index as they were: no partial
/// update is ever visible.
pub proof fn lemma_reconfigure_replaces_wholesale(
    m: MultisigView,
    presented_address: Pubkey,
    owners: Seq<Pubkey>,
    threshold: u64,
)
    ensures
        (group_address_of(m.seed) == Some(presented_address) && m.pending_transactions.len() == 0
            && config_error(owners, threshold) is None) ==> spec_upgrade_multisig(
            m,
            presented_address,
            true,
            owners,
            threshold,
        ) == Ok::<MultisigView, MultisigError>(MultisigView { owners, threshold, ..m }),
{
}

/// Removing listed addresses never lengthens the pending index.
pub proof fn lemma_without_keys_len(pending: Seq<Pubkey>, remove: Seq<Pubkey>)
    ensures
        without_keys(pending, remove).len() <= pending.len(),
    decreases pending.len(),
{
    if pending.len() > 0 {
        lemma_without_keys_len(pending.drop_last(), remove);
    }
}

/// Every record that group creation persists satisfies the group invariant.
pub proof fn lemma_create_group_preserves_wf(
    seed: u128,
    declared_address: Pubkey,
    owners: Seq<Pubkey>,
    threshold: u64,
)
    ensures
        spec_create_multisig(seed, declared_address, owners, threshold) matches Ok(mv)
            ==> mv.wf(),
{
}

/// Reconfiguration keeps the group invariant.
pub proof fn lemma_reconfigure_preserves_wf(
    m: MultisigView,
    presented_address: Pubkey,
    group_signed: bool,
    owners: Seq<Pubkey>,
    threshold: u64,
)
    requires
        m.wf(),
    ensures
        spec_upgrade_multisig(m, presented_address, group_signed, owners, threshold) matches Ok(
            mv,
        ) ==> mv.wf(),
{
}

/// Proposal creation keeps the group invariant and aligns the new
/// proposal's approval vector with the group's owner list.
pub proof fn lemma_create_transaction_preserves_wf(
    m: MultisigView,
    group_address: Pubkey,
    proposer: Pubkey,
    proposer_signed: bool,
    seed: u128,
    declared_address: Pubkey,
    pid: Pubkey,
    accounts: Seq<TransactionAccount>,
    data: Seq<u8>,
)
    requires
        m.wf(),
    ensures
        spec_create_transaction(
            m,
            group_address,
            proposer,
            proposer_signed,
            seed,
            declared_address,
            pid,
            accounts,
            data,
        ) matches Ok((mv, tv)) ==> mv.wf() && tv.signers.len() == mv.owners.len(),
{
}

/// Execution keeps the group invariant.
pub proof fn lemma_execute_preserves_wf(
    m: MultisigView,
    presented_group: Pubkey,
    t: TransactionView,
    tx_address: Pubkey,
    supplied: Seq<TransactionAccount>,
)
    requires
        m.wf(),
    ensures
        spec_execute_transaction(m, presented_group, t, tx_address, supplied) matches Ok(
            (mv, tv, plan),
        ) ==> mv.wf(),
{
    lemma_first_index_of(m.pending_transactions, tx_address);
}

/// Deleting pending proposals keeps the group invariant.
pub proof fn lemma_delete_pending_preserves_wf(
    m: MultisigView,
    presented_address: Pubkey,
    group_signed: bool,
    remove: Seq<Pubkey>,
)
    requires
        m.wf(),
    ensures
        spec_delete_pending_transactions(m, presented_address, group_signed, remove) matches Ok(
            mv,
        ) ==> mv.wf(),
{
    lemma_without_keys_len(m.pending_transactions, remove);
}

} // verus!
