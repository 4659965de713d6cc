use vstd::prelude::*;
use crate::keys::Pubkey;

verus! {

/// What the ledger runtime's address derivation returns for a role tag, an
/// identity and a program: the derived address and its disambiguating
/// factor, or nothing in the statistically improbable event that no factor
/// yields a valid address. The derivation is a pure function of these three
/// inputs; nothing further is assumed of it.
pub uninterp spec fn derivation_of(tag: Seq<u8>, identity: Seq<u8>, program: Seq<u8>) -> Option<
    (Pubkey, u8),
>;

/// Relies on `Pubkey::try_find_program_address` of the ledger runtime's SDK
/// (reached through anchor_lang): a deterministic derivation of an address
/// and bump factor from the seed slices and the program id, `None` when no
/// viable bump exists.
#[verifier::external_body]
pub(crate) fn find_derived_address(tag: &Vec<u8>, identity: &Pubkey, program: &Pubkey) -> (r:
    Option<(Pubkey, u8)>)
    ensures
        r == derivation_of(tag@, identity@, program@),
{
    let program_key = anchor_lang::solana_program::pubkey::Pubkey::new_from_array(program.bytes);
    match anchor_lang::solana_program::pubkey::Pubkey::try_find_program_address(
        &[tag.as_slice(), &identity.bytes],
        &program_key,
    ) {
        Some((address, bump)) => Some((Pubkey { bytes: address.to_bytes() }, bump)),
        None => None,
    }
}

} // verus!
