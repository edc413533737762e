use vstd::prelude::*;

use crate::addr::{
    find_pda, get_multisig_address, get_transaction_address, group_address_of, group_tag,
    group_tag_bytes, pda_of, transaction_address_of,
};
use crate::error::MultisigError;
use crate::pubkey::Pubkey;
use crate::state::{config_error, has_duplicate, Multisig, MultisigView, Transaction, TransactionView};
use crate::state::TransactionAccount;
use crate::{MAX_SIGNERS, MAX_TRANSACTIONS, MIN_SIGNERS};
use vstd::pervasive::VecAdditionalExecFns;

verus! {

/// Index of the first occurrence of `key` in `s`, or `-1` if `key` does not
/// occur.
pub open spec fn first_index_of(s: Seq<Pubkey>, key: Pubkey) -> int
    decreases s.len(),
{
    if s.len() == 0 {
        -1
    } else if s[0] == key {
        0
    } else {
        let rest = first_index_of(s.subrange(1, s.len() as int), key);
        if rest == -1 {
            -1
        } else {
            rest + 1
        }
    }
}

/// `first_index_of` finds `key` exactly when the sequence contains it, and
/// then yields the smallest index holding it.
pub proof fn lemma_first_index_of(s: Seq<Pubkey>, key: Pubkey)
    ensures
        (first_index_of(s, key) == -1) <==> !s.contains(key),
        first_index_of(s, key) != -1 ==> {
            &&& 0 <= first_index_of(s, key) < s.len()
            &&& s[first_index_of(s, key)] == key
            &&& forall|j: int| 0 <= j < first_index_of(s, key) ==> s[j] != key
        },
    decreases s.len(),
{
    if s.len() == 0 {
        assert(!s.contains(key));
    } else if s[0] == key {
        assert(s.contains(key));
    } else {
        let tail = s.subrange(1, s.len() as int);
        lemma_first_index_of(tail, key);
        let rest = first_index_of(tail, key);
        if rest == -1 {
            assert(forall|i: int| 1 <= i < s.len() ==> tail[i - 1] == s[i]);
            assert forall|i: int| 0 <= i < s.len() implies s[i] != key by {
                if i >= 1 {
                    assert(s[i] == tail[i - 1]);
                    assert(!tail.contains(key));
                }
            }
            assert(!s.contains(key));
        } else {
            assert(s[rest + 1] == tail[rest]);
            assert(s.contains(key));
            assert forall|j: int| 0 <= j < rest + 1 implies s[j] != key by {
                if j >= 1 {
                    assert(s[j] == tail[j - 1]);
                }
            }
        }
    }
}

/// Number of true entries in a vector of approval bits.
pub open spec fn count_true(s: Seq<bool>) -> nat
    decreases s.len(),
{
    if s.len() == 0 {
        0
    } else {
        count_true(s.drop_last()) + if s.last() {
            1nat
        } else {
            0nat
        }
    }
}

/// Whether `supplied` lists the same addresses, in the same order, as the
/// proposal's stored account list.
pub open spec fn accounts_match(
    supplied: Seq<TransactionAccount>,
    stored: Seq<TransactionAccount>,
) -> bool {
    &&& supplied.len() == stored.len()
    &&& forall|i: int| 0 <= i < stored.len() ==> supplied[i].pubkey == stored[i].pubkey
}

/// The stored account list with the group's delegated authority marked as a
/// signer for this one invocation.
pub open spec fn mark_authority(
    accounts: Seq<TransactionAccount>,
    authority: Pubkey,
) -> Seq<TransactionAccount> {
    accounts.map(
        |i: int, a: TransactionAccount|
            if a.pubkey == authority {
                TransactionAccount { is_signer: true, ..a }
            } else {
                a
            },
    )
}

/// `pending` with every address that occurs in `remove` taken out, keeping
/// the order of the rest.
pub open spec fn without_keys(pending: Seq<Pubkey>, remove: Seq<Pubkey>) -> Seq<Pubkey>
    decreases pending.len(),
{
    if pending.len() == 0 {
        Seq::empty()
    } else {
        let rest = without_keys(pending.drop_last(), remove);
        if remove.contains(pending.last()) {
            rest
        } else {
            rest.push(pending.last())
        }
    }
}

/// The operation handed to the external invoke capability once a proposal
/// has reached quorum: the stored target, its account list with the group's
/// delegated authority marked as signer, the stored payload, and the seed
/// and bump that prove authority over the group's address.
#[derive(Clone, Debug, PartialEq)]
pub struct InstructionPlan {
    /// Target program to execute against.
    pub program_id: Pubkey,
    /// The stored account list, with the delegated authority marked.
    pub accounts: Vec<TransactionAccount>,
    /// Instruction data for the transaction.
    pub data: Vec<u8>,
    /// The group address the invocation is signed for.
    pub authority: Pubkey,
    /// The seed the group's address was derived from.
    pub authority_seed: u128,
    /// The bump seed that completes the derivation of `authority`.
    pub authority_bump: u8,
}

/// Mathematical value of an [`InstructionPlan`].
#[verifier::ext_equal]
pub struct InstructionPlanView {
    pub program_id: Pubkey,
    pub accounts: Seq<TransactionAccount>,
    pub data: Seq<u8>,
    pub authority: Pubkey,
    pub authority_seed: u128,
    pub authority_bump: u8,
}

impl View for InstructionPlan {
    type V = InstructionPlanView;

    open spec fn view(&self) -> InstructionPlanView {
        InstructionPlanView {
            program_id: self.program_id,
            accounts: self.accounts@,
            data: self.data@,
            authority: self.authority,
            authority_seed: self.authority_seed,
            authority_bump: self.authority_bump,
        }
    }
}

/// The group-creation transition: what record `CreateMultisig` persists, or
/// the error it is rejected with, as a function of the request alone.
pub open spec fn spec_create_multisig(
    seed: u128,
    declared_address: Pubkey,
    owners: Seq<Pubkey>,
    threshold: u64,
) -> Result<MultisigView, MultisigError> {
    if group_address_of(seed) != Some(declared_address) {
        Err(MultisigError::AddressMismatch)
    } else {
        match config_error(owners, threshold) {
            Some(e) => Err(e),
            None => Ok(
                MultisigView {
                    is_initialized: true,
                    seed,
                    owners,
                    threshold,
                    pending_transactions: Seq::empty(),
                },
            ),
        }
    }
}

/// The reconfiguration transition: how `UpgradeMultisig` replaces a group's
/// owners and threshold, or the error it is rejected with.
pub open spec fn spec_upgrade_multisig(
    m: MultisigView,
    presented_address: Pubkey,
    group_signed: bool,
    owners: Seq<Pubkey>,
    threshold: u64,
) -> Result<MultisigView, MultisigError> {
    if !group_signed {
        Err(MultisigError::MissingSignature)
    } else if group_address_of(m.seed) != Some(presented_address) {
        Err(MultisigError::AddressMismatch)
    } else if m.pending_transactions.len() != 0 {
        Err(MultisigError::PendingTransactionsExist)
    } else {
        match config_error(owners, threshold) {
            Some(e) => Err(e),
            None => Ok(MultisigView { owners, threshold, ..m }),
        }
    }
}

/// The proposal-creation transition: the new proposal record and the group
/// record with the proposal's address appended to its pending index, or the
/// error the request is rejected with.
pub open spec fn spec_create_transaction(
    m: MultisigView,
    group_address: Pubkey,
    proposer: Pubkey,
    proposer_signed: bool,
    seed: u128,
    declared_address: Pubkey,
    pid: Pubkey,
    accounts: Seq<TransactionAccount>,
    data: Seq<u8>,
) -> Result<(MultisigView, TransactionView), MultisigError> {
    if !proposer_signed {
        Err(MultisigError::MissingSignature)
    } else if m.pending_transactions.len() >= MAX_TRANSACTIONS {
        Err(MultisigError::TooManyPending)
    } else if !m.owners.contains(proposer) {
        Err(MultisigError::UnknownOwner)
    } else if transaction_address_of(seed) != Some(declared_address) {
        Err(MultisigError::AddressMismatch)
    } else {
        Ok(
            (
                MultisigView {
                    pending_transactions: m.pending_transactions.push(declared_address),
                    ..m
                },
                TransactionView {
                    is_initialized: true,
                    multisig: group_address,
                    program_id: pid,
                    accounts,
                    data,
                    signers: Seq::new(
                        m.owners.len(),
                        |i: int| i == first_index_of(m.owners, proposer),
                    ),
                    did_execute: false,
                },
            ),
        )
    }
}

/// The approval transition: the proposal record with the approver's bit set,
/// or the error the request is rejected with.
pub open spec fn spec_approve(
    m: MultisigView,
    presented_group: Pubkey,
    t: TransactionView,
    approver: Pubkey,
    approver_signed: bool,
) -> Result<TransactionView, MultisigError> {
    if !approver_signed {
        Err(MultisigError::MissingSignature)
    } else if t.multisig != presented_group {
        Err(MultisigError::GroupMismatch)
    } else if !m.owners.contains(approver) {
        Err(MultisigError::UnknownOwner)
    } else {
        Ok(
            TransactionView {
                signers: t.signers.update(first_index_of(m.owners, approver), true),
                ..t
            },
        )
    }
}

/// The execution transition: the two records after a successful execution
/// (latch set, proposal removed from the pending index) and the operation to
/// hand to the external invoke capability, or the error the request is
/// rejected with.
pub open spec fn spec_execute_transaction(
    m: MultisigView,
    presented_group: Pubkey,
    t: TransactionView,
    tx_address: Pubkey,
    supplied: Seq<TransactionAccount>,
) -> Result<(MultisigView, TransactionView, InstructionPlanView), MultisigError> {
    match pda_of(group_tag(), m.seed) {
        None => Err(MultisigError::AddressMismatch),
        Some((derived, bump)) => {
            if derived != presented_group {
                Err(MultisigError::AddressMismatch)
            } else if t.multisig != presented_group {
                Err(MultisigError::GroupMismatch)
            } else if t.did_execute {
                Err(MultisigError::AlreadyExecuted)
            } else if count_true(t.signers) < m.threshold {
                Err(MultisigError::NotEnoughSigners)
            } else if !accounts_match(supplied, t.accounts) {
                Err(MultisigError::AddressMismatch)
            } else if first_index_of(m.pending_transactions, tx_address) == -1 {
                Err(MultisigError::UnknownProposal)
            } else {
                Ok(
                    (
                        MultisigView {
                            pending_transactions: m.pending_transactions.remove(
                                first_index_of(m.pending_transactions, tx_address),
                            ),
                            ..m
                        },
                        TransactionView { did_execute: true, ..t },
                        InstructionPlanView {
                            program_id: t.program_id,
                            accounts: mark_authority(t.accounts, presented_group),
                            data: t.data,
                            authority: presented_group,
                            authority_seed: m.seed,
                            authority_bump: bump,
                        },
                    ),
                )
            }
        },
    }
}

/// The pending-index deletion transition: the group record with the listed
/// proposal addresses taken out of its pending index, or the error the
/// request is rejected with. Deletion demands the same self-authorizing
/// co-signature as reconfiguration.
pub open spec fn spec_delete_pending_transactions(
    m: MultisigView,
    presented_address: Pubkey,
    group_signed: bool,
    remove: Seq<Pubkey>,
) -> Result<MultisigView, MultisigError> {
    if !group_signed {
        Err(MultisigError::MissingSignature)
    } else if group_address_of(m.seed) != Some(presented_address) {
        Err(MultisigError::AddressMismatch)
    } else {
        Ok(
            MultisigView {
                pending_transactions: without_keys(m.pending_transactions, remove),
                ..m
            },
        )
    }
}


/// Checks that no owner occurs twice in the proposed owner set.
pub fn assert_unique_owners(owners: &Vec<Pubkey>) -> (r: Result<(), MultisigError>)
    ensures
        match r {
            Ok(()) => !has_duplicate(owners@),
            Err(e) => has_duplicate(owners@) && e == MultisigError::DuplicateOwner,
        },
{
    let n = owners.len();
    let mut i: usize = 0;
    while i < n
        invariant
            i <= n,
            n == owners@.len(),
            forall|p: int, q: int| 0 <= p < q < n && p < i ==> owners@[p] != owners@[q],
        decreases n - i,
    {
        let mut j: usize = i + 1;
        while j < n
            invariant
                i < j <= n,
                i < n,
                n == owners@.len(),
                forall|q: int| i < q < j ==> owners@[i as int] != owners@[q],
                forall|p: int, q: int| 0 <= p < q < n && p < i ==> owners@[p] != owners@[q],
            decreases n - j,
        {
            if owners[i] == owners[j] {
                return Err(MultisigError::DuplicateOwner);
            }
            j += 1;
        }
        i += 1;
    }
    Ok(())
}

/// Checks a proposed `(owners, threshold)` configuration, reporting the
/// first violated rule in the order the processor checks them.
pub fn check_config(owners: &Vec<Pubkey>, threshold: u64) -> (r: Result<(), MultisigError>)
    ensures
        match r {
            Ok(()) => config_error(owners@, threshold) is None,
            Err(e) => config_error(owners@, threshold) == Some(e),
        },
{
    match assert_unique_owners(owners) {
        Err(e) => {
            return Err(e);
        },
        Ok(()) => {},
    }
    let n = owners.len();
    if !(MIN_SIGNERS <= threshold && threshold <= MAX_SIGNERS && threshold <= n as u64) {
        return Err(MultisigError::InvalidThreshold);
    }
    if n == 0 {
        return Err(MultisigError::EmptyOwnerSet);
    }
    if n as u64 > MAX_SIGNERS {
        return Err(MultisigError::TooManyOwners);
    }
    Ok(())
}

/// Position of the first occurrence of `key` in `keys`, if any.
pub fn find_key_index(keys: &Vec<Pubkey>, key: &Pubkey) -> (r: Option<usize>)
    ensures
        match r {
            Some(i) => first_index_of(keys@, *key) == i as int,
            None => first_index_of(keys@, *key) == -1,
        },
{
    let n = keys.len();
    let mut i: usize = 0;
    while i < n
        invariant
            i <= n,
            n == keys@.len(),
            forall|j: int| 0 <= j < i ==> keys@[j] != *key,
        decreases n - i,
    {
        if keys[i] == *key {
            proof {
                assert(keys@[i as int] == *key);
                assert(keys@.contains(*key));
                lemma_first_index_of(keys@, *key);
            }
            return Some(i);
        }
        i += 1;
    }
    proof {
        lemma_first_index_of(keys@, *key);
    }
    None
}

/// Whether `key` occurs in `keys`.
pub fn contains_key(keys: &Vec<Pubkey>, key: &Pubkey) -> (r: bool)
    ensures
        r == keys@.contains(*key),
{
    proof {
        lemma_first_index_of(keys@, *key);
    }
    match find_key_index(keys, key) {
        Some(i) => true,
        None => false,
    }
}

/// Number of approvals a proposal has collected.
pub fn count_signers(signers: &Vec<bool>) -> (r: usize)
    ensures
        r == count_true(signers@),
{
    let n = signers.len();
    let mut count: usize = 0;
    let mut i: usize = 0;
    while i < n
        invariant
            i <= n,
            n == signers@.len(),
            count <= i,
            count == count_true(signers@.subrange(0, i as int)),
        decreases n - i,
    {
        if signers[i] {
            count += 1;
        }
        i += 1;
        proof {
            let prefix = signers@.subrange(0, i as int);
            assert(prefix.drop_last() =~= signers@.subrange(0, i - 1));
            assert(prefix.last() == signers@[i - 1]);
        }
    }
    proof {
        assert(signers@.subrange(0, n as int) =~= signers@);
    }
    count
}

/// A fresh vector holding the same elements as `v`.
pub(crate) fn copy_vec<T: Copy>(v: &Vec<T>) -> (r: Vec<T>)
    ensures
        r@ == v@,
{
    let n = v.len();
    let mut out: Vec<T> = Vec::new();
    let mut i: usize = 0;
    while i < n
        invariant
            i <= n,
            n == v@.len(),
            out@ =~= v@.subrange(0, i as int),
        decreases n - i,
    {
        out.push(v[i]);
        i += 1;
    }
    proof {
        assert(out@ =~= v@);
    }
    out
}

/// The stored account list with the delegated authority marked as signer.
pub(crate) fn mark_authority_exec(
    accounts: &Vec<TransactionAccount>,
    authority: &Pubkey,
) -> (r: Vec<TransactionAccount>)
    ensures
        r@ == mark_authority(accounts@, *authority),
{
    let n = accounts.len();
    let mut out: Vec<TransactionAccount> = Vec::new();
    let mut i: usize = 0;
    while i < n
        invariant
            i <= n,
            n == accounts@.len(),
            out@.len() == i,
            forall|j: int| 0 <= j < i ==> out@[j] == mark_authority(accounts@, *authority)[j],
        decreases n - i,
    {
        let a = accounts[i];
        if a.pubkey == *authority {
            out.push(
                TransactionAccount {
                    pubkey: a.pubkey,
                    is_signer: true,
                    is_writable: a.is_writable,
                },
            );
        } else {
            out.push(a);
        }
        i += 1;
    }
    proof {
        assert(out@ =~= mark_authority(accounts@, *authority));
    }
    out
}

/// The authorization processor.
///
/// Each method implements one of the request kinds as a transition on the
/// loaded records: it validates the request against the records, mutates
/// them, and leaves persistence to the storage layer around the library.
/// Every method's result is pinned to the corresponding `spec_` transition.
pub struct Processor;

impl Processor {
    /// Validates a `CreateMultisig` request and produces the group record to
    /// persist at `declared_address`.
    pub fn process_create_multisig(
        declared_address: &Pubkey,
        seed: u128,
        owners: Vec<Pubkey>,
        threshold: u64,
    ) -> (r: Result<Multisig, MultisigError>)
        ensures
            ({
                let s = spec_create_multisig(seed, *declared_address, owners@, threshold);
                match r {
                    Ok(m) => s == Ok::<MultisigView, MultisigError>(m@),
                    Err(e) => s == Err::<MultisigView, MultisigError>(e),
                }
            }),
    {
        let derived = get_multisig_address(seed);
        let address_ok = match derived {
            Some(k) => k == *declared_address,
            None => false,
        };
        if !address_ok {
            return Err(MultisigError::AddressMismatch);
        }
        match check_config(&owners, threshold) {
            Err(e) => {
                return Err(e);
            },
            Ok(()) => {},
        }
        let m = Multisig {
            is_initialized: true,
            seed,
            owners,
            threshold,
            pending_transactions: Vec::new(),
        };
        proof {
            assert(m@ =~= spec_create_multisig(seed, *declared_address, m.owners@, threshold)
                .unwrap());
        }
        Ok(m)
    }

    /// Validates an `UpgradeMultisig` request against the loaded group
    /// record and replaces the record's owners and threshold.
    pub fn process_upgrade_multisig(
        group: &mut Multisig,
        presented_address: &Pubkey,
        group_signed: bool,
        owners: Vec<Pubkey>,
        threshold: u64,
    ) -> (r: Result<(), MultisigError>)
        ensures
            ({
                let s = spec_upgrade_multisig(
                    old(group)@,
                    *presented_address,
                    group_signed,
                    owners@,
                    threshold,
                );
                match r {
                    Ok(()) => s == Ok::<MultisigView, MultisigError>(final(group)@),
                    Err(e) => s == Err::<MultisigView, MultisigError>(e) && final(group)@ == old(
                        group,
                    )@,
                }
            }),
    {
        if !group_signed {
            return Err(MultisigError::MissingSignature);
        }
        let derived = get_multisig_address(group.seed);
        let address_ok = match derived {
            Some(k) => k == *presented_address,
            None => false,
        };
        if !address_ok {
            return Err(MultisigError::AddressMismatch);
        }
        if group.pending_transactions.len() != 0 {
            return Err(MultisigError::PendingTransactionsExist);
        }
        match check_config(&owners, threshold) {
            Err(e) => {
                return Err(e);
            },
            Ok(()) => {},
        }
        group.owners = owners;
        group.threshold = threshold;
        proof {
            assert(group@ =~= spec_upgrade_multisig(
                old(group)@,
                *presented_address,
                group_signed,
                group.owners@,
                threshold,
            ).unwrap());
        }
        Ok(())
    }

    /// Validates a `CreateTransaction` request, produces the proposal record
    /// to persist at `declared_address`, and appends that address to the
    /// group's pending index.
    pub fn process_create_transaction(
        group: &mut Multisig,
        group_address: &Pubkey,
        proposer: &Pubkey,
        proposer_signed: bool,
        seed: u128,
        declared_address: &Pubkey,
        pid: &Pubkey,
        accounts: Vec<TransactionAccount>,
        data: Vec<u8>,
    ) -> (r: Result<Transaction, MultisigError>)
        ensures
            ({
                let s = spec_create_transaction(
                    old(group)@,
                    *group_address,
                    *proposer,
                    proposer_signed,
                    seed,
                    *declared_address,
                    *pid,
                    accounts@,
                    data@,
                );
                match r {
                    Ok(t) => s == Ok::<(MultisigView, TransactionView), MultisigError>(
                        (final(group)@, t@),
                    ),
                    Err(e) => s == Err::<(MultisigView, TransactionView), MultisigError>(e)
                        && final(group)@ == old(group)@,
                }
            }),
    {
        if !proposer_signed {
            return Err(MultisigError::MissingSignature);
        }
        if group.pending_transactions.len() >= MAX_TRANSACTIONS {
            return Err(MultisigError::TooManyPending);
        }
        let owner_index = match find_key_index(&group.owners, proposer) {
            None => {
                proof {
                    lemma_first_index_of(group.owners@, *proposer);
                }
                return Err(MultisigError::UnknownOwner);
            },
            Some(i) => i,
        };
        proof {
            lemma_first_index_of(group.owners@, *proposer);
        }
        let derived = get_transaction_address(seed);
        let address_ok = match derived {
            Some(k) => k == *declared_address,
            None => false,
        };
        if !address_ok {
            return Err(MultisigError::AddressMismatch);
        }
        let owner_count = group.owners.len();
        let mut signers: Vec<bool> = Vec::new();
        let mut i: usize = 0;
        while i < owner_count
            invariant
                i <= owner_count,
                signers@.len() == i,
                forall|j: int| 0 <= j < i ==> signers@[j] == (j == owner_index as int),
            decreases owner_count - i,
        {
            signers.push(i == owner_index);
            i += 1;
        }
        let tx = Transaction {
            is_initialized: true,
            multisig: *group_address,
            program_id: *pid,
            accounts,
            data,
            signers,
            did_execute: false,
        };
        group.pending_transactions.push(*declared_address);
        proof {
            let s = spec_create_transaction(
                old(group)@,
                *group_address,
                *proposer,
                proposer_signed,
                seed,
                *declared_address,
                *pid,
                tx.accounts@,
                tx.data@,
            );
            assert(tx@.signers =~= s.unwrap().1.signers);
            assert(tx@ =~= s.unwrap().1);
            assert(group@ =~= s.unwrap().0);
        }
        Ok(tx)
    }

    /// Validates an `Approve` request and sets the approver's bit in the
    /// proposal's approval vector.
    pub fn process_approve(
        group: &Multisig,
        presented_group: &Pubkey,
        tx: &mut Transaction,
        approver: &Pubkey,
        approver_signed: bool,
    ) -> (r: Result<(), MultisigError>)
        requires
            old(tx)@.signers.len() == group@.owners.len(),
        ensures
            ({
                let s = spec_approve(
                    group@,
                    *presented_group,
                    old(tx)@,
                    *approver,
                    approver_signed,
                );
                match r {
                    Ok(()) => s == Ok::<TransactionView, MultisigError>(final(tx)@),
                    Err(e) => s == Err::<TransactionView, MultisigError>(e) && final(tx)@ == old(
                        tx,
                    )@,
                }
            }),
    {
        if !approver_signed {
            return Err(MultisigError::MissingSignature);
        }
        if !(tx.multisig == *presented_group) {
            return Err(MultisigError::GroupMismatch);
        }
        let owner_index = match find_key_index(&group.owners, approver) {
            None => {
                proof {
                    lemma_first_index_of(group.owners@, *approver);
                }
                return Err(MultisigError::UnknownOwner);
            },
            Some(i) => i,
        };
        proof {
            lemma_first_index_of(group.owners@, *approver);
        }
        tx.signers.set(owner_index, true);
        proof {
            assert(tx@ =~= spec_approve(
                group@,
                *presented_group,
                old(tx)@,
                *approver,
                approver_signed,
            ).unwrap());
        }
        Ok(())
    }

    /// Validates an `ExecuteTransaction` request; on success sets the
    /// proposal's one-way execution latch, removes its address from the
    /// group's pending index, and returns the operation to hand to the
    /// external invoke capability. The records must only be persisted if
    /// that invocation succeeds.
    pub fn process_execute_transaction(
        group: &mut Multisig,
        presented_group: &Pubkey,
        tx: &mut Transaction,
        tx_address: &Pubkey,
        supplied_accounts: &Vec<TransactionAccount>,
    ) -> (r: Result<InstructionPlan, MultisigError>)
        ensures
            ({
                let s = spec_execute_transaction(
                    old(group)@,
                    *presented_group,
                    old(tx)@,
                    *tx_address,
                    supplied_accounts@,
                );
                match r {
                    Ok(plan) => s == Ok::<(MultisigView, TransactionView, InstructionPlanView),
                        MultisigError>((final(group)@, final(tx)@, plan@)),
                    Err(e) => s == Err::<(MultisigView, TransactionView, InstructionPlanView),
                        MultisigError>(e) && final(group)@ == old(group)@ && final(tx)@ == old(
                        tx,
                    )@,
                }
            }),
    {
        let tag = group_tag_bytes();
        let (derived, bump) = match find_pda(&tag, group.seed) {
            None => {
                return Err(MultisigError::AddressMismatch);
            },
            Some(p) => p,
        };
        if !(derived == *presented_group) {
            return Err(MultisigError::AddressMismatch);
        }
        if !(tx.multisig == *presented_group) {
            return Err(MultisigError::GroupMismatch);
        }
        if tx.did_execute {
            return Err(MultisigError::AlreadyExecuted);
        }
        let approvals = count_signers(&tx.signers);
        if (approvals as u64) < group.threshold {
            return Err(MultisigError::NotEnoughSigners);
        }
        if !accounts_structurally_match(supplied_accounts, &tx.accounts) {
            return Err(MultisigError::AddressMismatch);
        }
        let pending_index = match find_key_index(&group.pending_transactions, tx_address) {
            None => {
                return Err(MultisigError::UnknownProposal);
            },
            Some(i) => i,
        };
        proof {
            lemma_first_index_of(group.pending_transactions@, *tx_address);
        }
        let plan_accounts = mark_authority_exec(&tx.accounts, presented_group);
        let plan_data = copy_vec(&tx.data);
        tx.did_execute = true;
        group.pending_transactions.remove(pending_index);
        let plan = InstructionPlan {
            program_id: tx.program_id,
            accounts: plan_accounts,
            data: plan_data,
            authority: *presented_group,
            authority_seed: group.seed,
            authority_bump: bump,
        };
        proof {
            let s = spec_execute_transaction(
                old(group)@,
                *presented_group,
                old(tx)@,
                *tx_address,
                supplied_accounts@,
            );
            assert(group@ =~= s.unwrap().0);
            assert(tx@ =~= s.unwrap().1);
            assert(plan@ =~= s.unwrap().2);
        }
        Ok(plan)
    }

    /// Validates a `DeletePendingTransactions` request and removes every
    /// listed address from the group's pending index.
    pub fn process_delete_pending_transactions(
        group: &mut Multisig,
        presented_address: &Pubkey,
        group_signed: bool,
        remove_list: &Vec<Pubkey>,
    ) -> (r: Result<(), MultisigError>)
        ensures
            ({
                let s = spec_delete_pending_transactions(
                    old(group)@,
                    *presented_address,
                    group_signed,
                    remove_list@,
                );
                match r {
                    Ok(()) => s == Ok::<MultisigView, MultisigError>(final(group)@),
                    Err(e) => s == Err::<MultisigView, MultisigError>(e) && final(group)@ == old(
                        group,
                    )@,
                }
            }),
    {
        if !group_signed {
            return Err(MultisigError::MissingSignature);
        }
        let derived = get_multisig_address(group.seed);
        let address_ok = match derived {
            Some(k) => k == *presented_address,
            None => false,
        };
        if !address_ok {
            return Err(MultisigError::AddressMismatch);
        }
        let n = group.pending_transactions.len();
        let mut kept: Vec<Pubkey> = Vec::new();
        let mut i: usize = 0;
        while i < n
            invariant
                i <= n,
                n == group.pending_transactions@.len(),
                group.pending_transactions@ == old(group).pending_transactions@,
                group.seed == old(group).seed,
                kept@ == without_keys(
                    group.pending_transactions@.subrange(0, i as int),
                    remove_list@,
                ),
            decreases n - i,
        {
            let key = group.pending_transactions[i];
            let dropped = contains_key(remove_list, &key);
            if !dropped {
                kept.push(key);
            }
            i += 1;
            proof {
                let prefix = group.pending_transactions@.subrange(0, i as int);
                assert(prefix.drop_last() =~= group.pending_transactions@.subrange(0, i - 1));
                assert(prefix.last() == group.pending_transactions@[i - 1]);
            }
        }
        proof {
            assert(group.pending_transactions@.subrange(0, n as int)
                =~= group.pending_transactions@);
        }
        group.pending_transactions = kept;
        proof {
            assert(group@ =~= spec_delete_pending_transactions(
                old(group)@,
                *presented_address,
                group_signed,
                remove_list@,
            ).unwrap());
        }
        Ok(())
    }
}

/// Whether `supplied` lists the same addresses, in the same order, as the
/// proposal's stored account list.
pub fn accounts_structurally_match(
    supplied: &Vec<TransactionAccount>,
    stored: &Vec<TransactionAccount>,
) -> (r: bool)
    ensures
        r == accounts_match(supplied@, stored@),
{
    let n = stored.len();
    if supplied.len() != n {
        return false;
    }
    let mut i: usize = 0;
    while i < n
        invariant
            i <= n,
            n == stored@.len(),
            n == supplied@.len(),
            forall|j: int| 0 <= j < i ==> supplied@[j].pubkey == stored@[j].pubkey,
        decreases n - i,
    {
        if !(supplied[i].pubkey == stored[i].pubkey) {
            return false;
        }
        i += 1;
    }
    true
}

} // verus!
