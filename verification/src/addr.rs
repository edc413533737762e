use vstd::prelude::*;

use crate::pubkey::Pubkey;

verus! {

/// The address and bump seed that the program-address derivation yields for
/// the given namespace tag and record seed, or `None` in the statistically
/// improbable event that no bump seed works. The derivation is a pure
/// function of the tag, the seed and the program's fixed identity, so it is
/// named here and axiomatised only through [`find_pda`]'s contract.
pub uninterp spec fn pda_of(tag: Seq<u8>, seed: u128) -> Option<(Pubkey, u8)>;

/// Namespace tag under which group record addresses are derived: the bytes
/// of `multisig`.
pub open spec fn group_tag() -> Seq<u8> {
    seq![109u8, 117u8, 108u8, 116u8, 105u8, 115u8, 105u8, 103u8]
}

/// Namespace tag under which proposal record addresses are derived: the
/// bytes of `transaction`.
pub open spec fn transaction_tag() -> Seq<u8> {
    seq![116u8, 114u8, 97u8, 110u8, 115u8, 97u8, 99u8, 116u8, 105u8, 111u8, 110u8]
}

/// The storage address of the group record with the given seed.
pub open spec fn group_address_of(seed: u128) -> Option<Pubkey> {
    match pda_of(group_tag(), seed) {
        Some((key, bump)) => Some(key),
        None => None,
    }
}

/// The storage address of the proposal record with the given seed.
pub open spec fn transaction_address_of(seed: u128) -> Option<Pubkey> {
    match pda_of(transaction_tag(), seed) {
        Some((key, bump)) => Some(key),
        None => None,
    }
}

/// Relies on `Pubkey::try_find_program_address` of solana_program: a
/// deterministic derivation, from the seed list and the program's identity
/// alone, of an address that is off the ed25519 curve, together with the
/// bump seed that produced it; `None` when no bump seed yields such an
/// address.
#[verifier::external_body]
pub(crate) fn find_pda(tag: &Vec<u8>, seed: u128) -> (r: Option<(Pubkey, u8)>)
    ensures
        r == pda_of(tag@, seed),
{
    let program_id = solana_program::pubkey::Pubkey::from_str_const(
        "9RVX1zPChY78ZNwAmMgtdwfupGrbBz1vJRCqPFnTzrMW",
    );
    let found = solana_program::pubkey::Pubkey::try_find_program_address(
        &[tag.as_slice(), &seed.to_le_bytes()],
        &program_id,
    );
    found.map(|(key, bump)| {
        let bytes = key.to_bytes();
        let lo = u128::from_le_bytes(bytes[0..16].try_into().unwrap());
        let hi = u128::from_le_bytes(bytes[16..32].try_into().unwrap());
        (Pubkey { lo, hi }, bump)
    })
}

/// The bytes of the group namespace tag, as an executable value.
pub(crate) fn group_tag_bytes() -> (r: Vec<u8>)
    ensures
        r@ == group_tag(),
{
    let mut v: Vec<u8> = Vec::new();
    v.push(109u8);
    v.push(117u8);
    v.push(108u8);
    v.push(116u8);
    v.push(105u8);
    v.push(115u8);
    v.push(105u8);
    v.push(103u8);
    proof {
        assert(v@ =~= group_tag());
    }
    v
}

/// The bytes of the proposal namespace tag, as an executable value.
pub(crate) fn transaction_tag_bytes() -> (r: Vec<u8>)
    ensures
        r@ == transaction_tag(),
{
    let mut v: Vec<u8> = Vec::new();
    v.push(116u8);
    v.push(114u8);
    v.push(97u8);
    v.push(110u8);
    v.push(115u8);
    v.push(97u8);
    v.push(99u8);
    v.push(116u8);
    v.push(105u8);
    v.push(111u8);
    v.push(110u8);
    proof {
        assert(v@ =~= transaction_tag());
    }
    v
}

/// The storage address of the group record derived from `seed`, or `None`
/// when the derivation finds no usable bump seed.
pub fn get_multisig_address(seed: u128) -> (r: Option<Pubkey>)
    ensures
        r == group_address_of(seed),
{
    let tag = group_tag_bytes();
    match find_pda(&tag, seed) {
        Some(p) => Some(p.0),
        None => None,
    }
}

/// The storage address of the proposal record derived from `seed`, or `None`
/// when the derivation finds no usable bump seed.
pub fn get_transaction_address(seed: u128) -> (r: Option<Pubkey>)
    ensures
        r == transaction_address_of(seed),
{
    let tag = transaction_tag_bytes();
    match find_pda(&tag, seed) {
        Some(p) => Some(p.0),
        None => None,
    }
}

} // verus!
