use multisig::{
    get_multisig_address, get_transaction_address, Multisig, MultisigError, Processor, Pubkey,
    Transaction, TransactionAccount,
};

fn key(n: u128) -> Pubkey {
    Pubkey { lo: n, hi: 0 }
}

fn make_group(seed: u128, owners: Vec<Pubkey>, threshold: u64) -> (Pubkey, Multisig) {
    let address = get_multisig_address(seed).expect("derivation");
    let group = Processor::process_create_multisig(&address, seed, owners, threshold)
        .expect("create group");
    (address, group)
}

fn propose(
    group: &mut Multisig,
    group_address: &Pubkey,
    proposer: &Pubkey,
    tx_seed: u128,
    accounts: Vec<TransactionAccount>,
    data: Vec<u8>,
) -> (Pubkey, Transaction) {
    let tx_address = get_transaction_address(tx_seed).expect("derivation");
    let tx = Processor::process_create_transaction(
        group,
        group_address,
        proposer,
        true,
        tx_seed,
        &tx_address,
        &key(500),
        accounts,
        data,
    )
    .expect("create transaction");
    (tx_address, tx)
}

#[test]
fn execute_group_mismatch_rejected() {
    let (address_a, mut group_a) = make_group(400, vec![key(1)], 1);
    let (address_b, mut group_b) = make_group(401, vec![key(1)], 1);
    let (tx_address, mut tx) = propose(&mut group_a, &address_a, &key(1), 402, vec![], vec![]);
    assert_eq!(address_a == address_b, false);

    // The proposal belongs to group A; presenting it with group B fails.
    let r = Processor::process_execute_transaction(
        &mut group_b,
        &address_b,
        &mut tx,
        &tx_address,
        &vec![],
    );
    assert_eq!(r, Err(MultisigError::GroupMismatch));
    assert_eq!(tx.did_execute, false);
}

#[test]
fn execute_supplied_accounts_must_match() {
    let a = key(1);
    let stored = vec![TransactionAccount { pubkey: key(600), is_signer: false, is_writable: true }];
    let (address, mut group) = make_group(410, vec![a], 1);
    let (tx_address, mut tx) = propose(&mut group, &address, &a, 411, stored.clone(), vec![]);

    // A different address in the supplied list is refused.
    let redirected = vec![TransactionAccount {
        pubkey: key(601),
        is_signer: false,
        is_writable: true,
    }];
    let r = Processor::process_execute_transaction(
        &mut group,
        &address,
        &mut tx,
        &tx_address,
        &redirected,
    );
    assert_eq!(r, Err(MultisigError::AddressMismatch));
    assert_eq!(tx.did_execute, false);

    // A shorter supplied list is refused too.
    let r = Processor::process_execute_transaction(
        &mut group,
        &address,
        &mut tx,
        &tx_address,
        &vec![],
    );
    assert_eq!(r, Err(MultisigError::AddressMismatch));

    // The stored list, with the same addresses in the same order, passes,
    // whatever its flag bits say.
    let plan = Processor::process_execute_transaction(
        &mut group,
        &address,
        &mut tx,
        &tx_address,
        &stored,
    )
    .expect("execute");
    assert_eq!(plan.accounts, stored);
}

#[test]
fn execute_unknown_proposal_rejected() {
    let a = key(1);
    let (address, mut group) = make_group(420, vec![a], 1);
    let (tx_address, mut tx) = propose(&mut group, &address, &a, 421, vec![], vec![]);
    group.pending_transactions.clear();

    let r = Processor::process_execute_transaction(
        &mut group,
        &address,
        &mut tx,
        &tx_address,
        &vec![],
    );
    assert_eq!(r, Err(MultisigError::UnknownProposal));
    assert_eq!(tx.did_execute, false);
}

#[test]
fn execute_plan_carries_stored_operation() {
    let a = key(1);
    let accounts = vec![
        TransactionAccount { pubkey: key(700), is_signer: true, is_writable: false },
        TransactionAccount { pubkey: key(701), is_signer: false, is_writable: true },
    ];
    let data = vec![0xde, 0xad, 0xbe, 0xef];
    let (address, mut group) = make_group(430, vec![a], 1);
    let (tx_address, mut tx) = propose(
        &mut group,
        &address,
        &a,
        431,
        accounts.clone(),
        data.clone(),
    );

    let plan = Processor::process_execute_transaction(
        &mut group,
        &address,
        &mut tx,
        &tx_address,
        &accounts,
    )
    .expect("execute");
    assert_eq!(plan.program_id, key(500));
    assert_eq!(plan.accounts, accounts);
    assert_eq!(plan.data, data);
    assert_eq!(plan.authority, address);
    assert_eq!(plan.authority_seed, 430);
}

#[test]
fn create_transaction_rejects_unknown_proposer() {
    let (address, mut group) = make_group(440, vec![key(1), key(2)], 1);
    let tx_address = get_transaction_address(441).expect("derivation");
    let r = Processor::process_create_transaction(
        &mut group,
        &address,
        &key(77),
        true,
        441,
        &tx_address,
        &key(500),
        vec![],
        vec![],
    );
    assert_eq!(r, Err(MultisigError::UnknownOwner));
    assert_eq!(group.pending_transactions.len(), 0);
}

#[test]
fn create_transaction_rejects_when_index_full() {
    let a = key(1);
    let (address, mut group) = make_group(450, vec![a], 1);
    for i in 0..10u128 {
        propose(&mut group, &address, &a, 451 + i, vec![], vec![]);
    }
    assert_eq!(group.pending_transactions.len(), 10);

    let tx_address = get_transaction_address(470).expect("derivation");
    let r = Processor::process_create_transaction(
        &mut group,
        &address,
        &a,
        true,
        470,
        &tx_address,
        &key(500),
        vec![],
        vec![],
    );
    assert_eq!(r, Err(MultisigError::TooManyPending));
    assert_eq!(group.pending_transactions.len(), 10);
}

#[test]
fn create_transaction_rejects_address_mismatch() {
    let a = key(1);
    let (address, mut group) = make_group(460, vec![a], 1);
    let wrong = get_transaction_address(462).expect("derivation");
    let r = Processor::process_create_transaction(
        &mut group,
        &address,
        &a,
        true,
        461,
        &wrong,
        &key(500),
        vec![],
        vec![],
    );
    assert_eq!(r, Err(MultisigError::AddressMismatch));
    assert_eq!(group.pending_transactions.len(), 0);
}

#[test]
fn create_transaction_requires_signature() {
    let a = key(1);
    let (address, mut group) = make_group(480, vec![a], 1);
    let tx_address = get_transaction_address(481).expect("derivation");
    let r = Processor::process_create_transaction(
        &mut group,
        &address,
        &a,
        false,
        481,
        &tx_address,
        &key(500),
        vec![],
        vec![],
    );
    assert_eq!(r, Err(MultisigError::MissingSignature));
}
