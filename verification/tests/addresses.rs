use multisig::{get_multisig_address, get_transaction_address};

#[test]
fn derivation_is_deterministic() {
    for seed in [0u128, 1, 42, u128::MAX] {
        assert_eq!(get_multisig_address(seed), get_multisig_address(seed));
        assert_eq!(get_transaction_address(seed), get_transaction_address(seed));
    }
}

#[test]
fn namespaces_are_disjoint() {
    for seed in [0u128, 1, 7, 1000, u128::MAX] {
        let group = get_multisig_address(seed).expect("derivation");
        let transaction = get_transaction_address(seed).expect("derivation");
        assert_ne!(group, transaction);
    }
}

#[test]
fn different_seeds_give_different_addresses() {
    let a = get_multisig_address(1).expect("derivation");
    let b = get_multisig_address(2).expect("derivation");
    assert_ne!(a, b);
    let c = get_transaction_address(1).expect("derivation");
    let d = get_transaction_address(2).expect("derivation");
    assert_ne!(c, d);
}

#[test]
fn derived_addresses_are_not_trivial() {
    // The derivation must actually hash: the result depends on the seed and
    // is not the seed itself carried through.
    let seed: u128 = 5;
    let address = get_multisig_address(seed).expect("derivation");
    assert!(!(address.lo == seed && address.hi == 0));
    assert!(!(address.lo == 0 && address.hi == 0));
}
