use vstd::prelude::*;

use crate::pubkey::{id, program_id, Pubkey};

verus! {

/// The fixed seed of the vault authority: the bytes of `vault`.
pub const VAULT_SEED: [u8; 5] = [118, 97, 117, 108, 116];

/// The address that a program derives from `seeds`, where they derive one: a
/// hash of the seeds and the program's address that is no point of the
/// signature curve, so that no private key belongs to it.
pub uninterp spec fn program_address(seeds: Seq<Seq<u8>>, program_id: Pubkey) -> Option<Pubkey>;

/// The first address that a program derives from `seeds` and one more seed of
/// a single byte, the bump, tried from 255 downwards; with that bump.
pub uninterp spec fn found_program_address(seeds: Seq<Seq<u8>>, program_id: Pubkey) -> Option<
    (Pubkey, u8),
>;

/// `Pubkey::create_program_address` of `solana_program`, with `Ok` turned into
/// `Some` and every error into `None`. The result depends on the seeds and the
/// program's address alone; the contract gives it its name and claims nothing
/// else.
#[verifier::external_body]
fn create_program_address(seeds: &Vec<Vec<u8>>, program_id: &Pubkey) -> (res: Option<Pubkey>)
    ensures
        res == program_address(seeds.deep_view(), *program_id),
{
    let parts: Vec<&[u8]> = seeds.iter().map(|seed| seed.as_slice()).collect();
    let program = anchor_lang::prelude::Pubkey::new_from_array(program_id.bytes);
    anchor_lang::prelude::Pubkey::create_program_address(&parts, &program)
        .ok()
        .map(|address| Pubkey { bytes: address.to_bytes() })
}

/// `Pubkey::try_find_program_address` of `solana_program`. The result depends
/// on the seeds and the program's address alone, and the contract gives it its
/// name. It also claims what the search is for: the address that comes back is
/// the one that `Pubkey::create_program_address` derives from the same seeds
/// followed by the bump that comes back with it.
#[verifier::external_body]
fn try_find_program_address(seeds: &Vec<Vec<u8>>, program_id: &Pubkey) -> (res: Option<
    (Pubkey, u8),
>)
    ensures
        res == found_program_address(seeds.deep_view(), *program_id),
        res matches Some((address, bump)) ==> program_address(
            seeds.deep_view().push(seq![bump]),
            *program_id,
        ) == Some(address),
{
    let parts: Vec<&[u8]> = seeds.iter().map(|seed| seed.as_slice()).collect();
    let program = anchor_lang::prelude::Pubkey::new_from_array(program_id.bytes);
    anchor_lang::prelude::Pubkey::try_find_program_address(&parts, &program)
        .map(|(address, bump)| (Pubkey { bytes: address.to_bytes() }, bump))
}

/// The seeds that the vault authority of a token is searched with.
pub open spec fn vault_seeds(usdc_mint: Pubkey) -> Seq<Seq<u8>> {
    seq![VAULT_SEED@, usdc_mint@]
}

/// The seeds that stand for the signature of the vault authority: those it was
/// searched with, and the bump that was found.
pub open spec fn signer_seeds(usdc_mint: Pubkey, bump: u8) -> Seq<Seq<u8>> {
    vault_seeds(usdc_mint).push(seq![bump])
}

/// The vault authority of a token and its bump, where there is one.
pub open spec fn found_vault_authority(usdc_mint: Pubkey) -> Option<(Pubkey, u8)> {
    found_program_address(vault_seeds(usdc_mint), program_id())
}

/// The identity in whose name the seeds of `usdc_mint` and `bump` sign, where
/// they derive one.
pub open spec fn derived_vault_authority(usdc_mint: Pubkey, bump: u8) -> Option<Pubkey> {
    program_address(signer_seeds(usdc_mint, bump), program_id())
}

/// A vector that holds the same bytes as `bytes`.
fn copy_of(bytes: &[u8]) -> (res: Vec<u8>)
    ensures
        res@ == bytes@,
{
    let mut res: Vec<u8> = Vec::new();
    let mut i: usize = 0;
    while i < bytes.len()
        invariant
            i <= bytes.len(),
            res@ == bytes@.subrange(0, i as int),
        decreases bytes.len() - i,
    {
        res.push(bytes[i]);
        i += 1;
    }
    assert(bytes@.subrange(0, bytes@.len() as int) == bytes@);
    res
}

/// The seeds of the vault authority without the bump.
fn vault_search_seeds(usdc_mint: &Pubkey) -> (seeds: Vec<Vec<u8>>)
    ensures
        seeds.deep_view() == vault_seeds(*usdc_mint),
{
    let mut seeds: Vec<Vec<u8>> = Vec::new();
    seeds.push(copy_of(VAULT_SEED.as_slice()));
    seeds.push(copy_of(usdc_mint.bytes.as_slice()));
    assert(seeds.deep_view() =~~= vault_seeds(*usdc_mint));
    seeds
}

/// The seeds that sign for the vault of `usdc_mint`: the vault seed, the bytes
/// of the mint, and the bump.
pub fn vault_signer_seeds(usdc_mint: &Pubkey, bump: u8) -> (seeds: Vec<Vec<u8>>)
    ensures
        seeds.deep_view() == signer_seeds(*usdc_mint, bump),
{
    let mut seeds = vault_search_seeds(usdc_mint);
    let mut last: Vec<u8> = Vec::new();
    last.push(bump);
    seeds.push(last);
    assert(seeds.deep_view() =~~= signer_seeds(*usdc_mint, bump));
    seeds
}

/// Searches the vault authority of `usdc_mint`: an address without a private
/// key, and the bump that derives it. The bump that comes back is a proof of
/// the authority: `vault_authority` derives the same address from it.
pub fn find_vault_authority(usdc_mint: &Pubkey) -> (res: Option<(Pubkey, u8)>)
    ensures
        res == found_vault_authority(*usdc_mint),
        res matches Some((authority, bump)) ==> derived_vault_authority(*usdc_mint, bump) == Some(
            authority,
        ),
{
    let seeds = vault_search_seeds(usdc_mint);
    let program = id();
    try_find_program_address(&seeds, &program)
}

/// Derives the vault authority of `usdc_mint` again from a stored bump. `None`
/// where the bump derives no address.
pub fn vault_authority(usdc_mint: &Pubkey, bump: u8) -> (res: Option<Pubkey>)
    ensures
        res == derived_vault_authority(*usdc_mint, bump),
{
    let seeds = vault_signer_seeds(usdc_mint, bump);
    let program = id();
    create_program_address(&seeds, &program)
}

} // verus!
