use multisig::{
    accounts_structurally_match, assert_unique_owners, check_config, contains_key, count_signers,
    find_key_index, get_multisig_address, MultisigError, MultisigInstruction, Processor, Pubkey,
    TransactionAccount,
};

fn key(n: u128) -> Pubkey {
    Pubkey { lo: n, hi: 0 }
}

#[test]
fn count_signers_counts_true_bits() {
    assert_eq!(count_signers(&vec![]), 0);
    assert_eq!(count_signers(&vec![false, false]), 0);
    assert_eq!(count_signers(&vec![true, false, true, true]), 3);
}

#[test]
fn find_key_index_returns_first_occurrence() {
    let keys = vec![key(5), key(7), key(5)];
    assert_eq!(find_key_index(&keys, &key(5)), Some(0));
    assert_eq!(find_key_index(&keys, &key(7)), Some(1));
    assert_eq!(find_key_index(&keys, &key(9)), None);
    assert!(contains_key(&keys, &key(7)));
    assert!(!contains_key(&keys, &key(9)));
}

#[test]
fn unique_owners_check() {
    assert_eq!(assert_unique_owners(&vec![key(1), key(2), key(3)]), Ok(()));
    assert_eq!(
        assert_unique_owners(&vec![key(1), key(2), key(1)]),
        Err(MultisigError::DuplicateOwner)
    );
}

#[test]
fn config_check_order() {
    // A duplicate owner is reported before the threshold.
    assert_eq!(
        check_config(&vec![key(1), key(1)], 0),
        Err(MultisigError::DuplicateOwner)
    );
    assert_eq!(check_config(&vec![key(1), key(2)], 3), Err(MultisigError::InvalidThreshold));
    assert_eq!(check_config(&vec![key(1), key(2)], 2), Ok(()));
}

#[test]
fn account_lists_match_by_address_and_order() {
    let a = TransactionAccount { pubkey: key(1), is_signer: false, is_writable: false };
    let b = TransactionAccount { pubkey: key(2), is_signer: true, is_writable: true };
    let a_flagged = TransactionAccount { pubkey: key(1), is_signer: true, is_writable: true };
    assert!(accounts_structurally_match(&vec![a, b], &vec![a, b]));
    // Flag bits do not take part in the structural match.
    assert!(accounts_structurally_match(&vec![a_flagged, b], &vec![a, b]));
    // Order and addresses do.
    assert!(!accounts_structurally_match(&vec![b, a], &vec![a, b]));
    assert!(!accounts_structurally_match(&vec![a], &vec![a, b]));
}

#[test]
fn records_report_initialization() {
    let seed: u128 = 900;
    let address = get_multisig_address(seed).expect("derivation");
    let group = Processor::process_create_multisig(&address, seed, vec![key(1)], 1)
        .expect("create");
    assert!(group.is_initialized());
}

#[test]
fn request_kinds_carry_their_payloads() {
    let ix = MultisigInstruction::CreateMultisig {
        seed: 3,
        owners: vec![key(1), key(2)],
        threshold: 2,
    };
    match ix {
        MultisigInstruction::CreateMultisig { seed, owners, threshold } => {
            assert_eq!(seed, 3);
            assert_eq!(owners, vec![key(1), key(2)]);
            assert_eq!(threshold, 2);
        }
        _ => panic!("wrong variant"),
    }
}
