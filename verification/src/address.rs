//! Deterministic addresses: where a pair record, its two escrow vaults and a
//! wallet's associated holding account live.

use vstd::prelude::*;
use anchor_lang::prelude::Pubkey;
use crate::key::Key;

verus! {

/// The entangler program, under which pair records and vaults are derived.
pub const ID: [u8; 32] = [
    218, 7, 92, 178, 255, 94, 198, 129, 118, 19, 222, 83, 11, 105, 42, 135,
    53, 71, 119, 105, 218, 71, 67, 12, 189, 129, 84, 51, 92, 74, 131, 39,
];

/// The token program, which owns every holding account.
pub const TOKEN_PROGRAM_ID: [u8; 32] = [
    6, 221, 246, 225, 215, 101, 161, 147, 217, 203, 225, 70, 206, 235, 121, 172,
    28, 180, 133, 237, 95, 91, 55, 145, 58, 140, 245, 133, 126, 255, 0, 169,
];

/// The associated-token-account program, under which a wallet's canonical
/// holding account for a mint is derived.
pub const ASSOCIATED_TOKEN_PROGRAM_ID: [u8; 32] = [
    140, 151, 37, 143, 78, 36, 137, 241, 187, 61, 16, 41, 20, 142, 13, 131,
    11, 90, 19, 153, 218, 255, 16, 132, 4, 142, 123, 216, 219, 233, 248, 89,
];

/// `"xnft-entangler"`, the first seed of every address of this program.
pub const PREFIX: [u8; 14] = [120, 110, 102, 116, 45, 101, 110, 116, 97, 110, 103, 108, 101, 114];

/// `"escrow"`, the seed that marks a vault.
pub const ESCROW: [u8; 6] = [101, 115, 99, 114, 111, 119];

/// `"A"`, the side tag of the first asset's vault.
pub const SIDE_A: [u8; 1] = [65];

/// `"B"`, the side tag of the second asset's vault.
pub const SIDE_B: [u8; 1] = [66];

/// Which of a pair's two assets a vault holds.
#[derive(Clone, Copy, Debug, PartialEq, Eq, Structural)]
pub enum Side {
    A,
    B,
}

/// What `Pubkey::try_find_program_address` returns for a list of seeds and a
/// program id: the address bytes and the bump seed, or `None` where no bump seed
/// yields an address.
pub uninterp spec fn program_address(seeds: Seq<Seq<u8>>, program_id: Seq<u8>) -> Option<(Seq<u8>, u8)>;

/// The seeds of a slice of byte slices, each as its bytes.
pub open spec fn seed_bytes(seeds: Seq<&[u8]>) -> Seq<Seq<u8>> {
    Seq::new(seeds.len(), |i: int| seeds[i]@)
}

/// The derived address as a key, with its bump seed.
pub open spec fn derived(seeds: Seq<Seq<u8>>, program_id: Seq<u8>) -> Option<(Key, u8)> {
    match program_address(seeds, program_id) {
        Some((bytes, bump)) => Some((Key::of_bytes(bytes), bump)),
        None => None,
    }
}

/// Calls `Pubkey::try_find_program_address` of `anchor_lang`'s `solana_program`.
/// The contract claims only that the outcome is a function of the seeds and the
/// program id. The outside function hashes them with a bump seed counted down
/// from 255 and returns the first hash that is no curve point; it returns `None`
/// where there is none, or where a seed is longer than 32 bytes or more than 15
/// seeds are given.
#[verifier::external_body]
fn try_find_program_address(seeds: &[&[u8]], program_id: &[u8; 32]) -> (found: Option<(Key, u8)>)
    ensures
        match found {
            Some((address, bump)) => program_address(seed_bytes(seeds@), program_id@) == Some(
                (address@, bump),
            ),
            None => program_address(seed_bytes(seeds@), program_id@) is None,
        },
{
    match Pubkey::try_find_program_address(seeds, &Pubkey::new_from_array(*program_id)) {
        Some((address, bump)) => Some((Key { bytes: address.to_bytes() }, bump)),
        None => None,
    }
}

/// Derives the address that the seeds name under the program.
pub fn derive_address(seeds: &[&[u8]], program_id: &[u8; 32]) -> (found: Option<(Key, u8)>)
    ensures
        found == derived(seed_bytes(seeds@), program_id@),
{
    let found = try_find_program_address(seeds, program_id);
    proof {
        if let Some((address, _)) = found {
            Key::lemma_of_bytes(address);
        }
    }
    found
}

/// The address of a derivation that found one.
pub open spec fn address_of(found: Option<(Key, u8)>) -> Key {
    let (address, _) = found->0;
    address
}

/// The nonce of a derivation that found an address.
pub open spec fn nonce_of(found: Option<(Key, u8)>) -> u8 {
    let (_, nonce) = found->0;
    nonce
}

/// The seed that tags a side.
pub open spec fn side_tag(side: Side) -> Seq<u8> {
    match side {
        Side::A => SIDE_A@,
        Side::B => SIDE_B@,
    }
}

/// Address and nonce of the record that entangles `asset_a` with `asset_b`, in
/// this order.
pub open spec fn pair_address(asset_a: Key, asset_b: Key) -> Option<(Key, u8)> {
    derived(seq![PREFIX@, asset_a@, asset_b@], ID@)
}

/// Address and nonce of the vault that holds one side of the pair
/// (`asset_a`, `asset_b`).
pub open spec fn escrow_address(asset_a: Key, asset_b: Key, side: Side) -> Option<(Key, u8)> {
    derived(seq![PREFIX@, asset_a@, asset_b@, ESCROW@, side_tag(side)], ID@)
}

/// Address and nonce of the canonical holding account of `owner` for `mint`.
pub open spec fn associated_address(owner: Key, mint: Key) -> Option<(Key, u8)> {
    derived(seq![owner@, TOKEN_PROGRAM_ID@, mint@], ASSOCIATED_TOKEN_PROGRAM_ID@)
}

/// Derives the address of the pair record for (`asset_a`, `asset_b`).
pub fn find_pair_address(asset_a: &Key, asset_b: &Key) -> (found: Option<(Key, u8)>)
    ensures
        found == pair_address(*asset_a, *asset_b),
{
    let seeds: [&[u8]; 3] = [PREFIX.as_slice(), asset_a.bytes.as_slice(), asset_b.bytes.as_slice()];
    assert(seed_bytes(seeds@) =~= seq![PREFIX@, asset_a@, asset_b@]);
    derive_address(seeds.as_slice(), &ID)
}

/// Derives the address of one of the two vaults of the pair (`asset_a`, `asset_b`).
pub fn find_escrow_address(asset_a: &Key, asset_b: &Key, side: Side) -> (found: Option<(Key, u8)>)
    ensures
        found == escrow_address(*asset_a, *asset_b, side),
{
    let tag: &[u8] = match side {
        Side::A => SIDE_A.as_slice(),
        Side::B => SIDE_B.as_slice(),
    };
    let seeds: [&[u8]; 5] = [
        PREFIX.as_slice(),
        asset_a.bytes.as_slice(),
        asset_b.bytes.as_slice(),
        ESCROW.as_slice(),
        tag,
    ];
    assert(seed_bytes(seeds@) =~= seq![PREFIX@, asset_a@, asset_b@, ESCROW@, side_tag(side)]);
    derive_address(seeds.as_slice(), &ID)
}

/// Derives the canonical holding account of `owner` for `mint`.
pub fn find_associated_address(owner: &Key, mint: &Key) -> (found: Option<(Key, u8)>)
    ensures
        found == associated_address(*owner, *mint),
{
    let seeds: [&[u8]; 3] = [
        owner.bytes.as_slice(),
        TOKEN_PROGRAM_ID.as_slice(),
        mint.bytes.as_slice(),
    ];
    assert(seed_bytes(seeds@) =~= seq![owner@, TOKEN_PROGRAM_ID@, mint@]);
    derive_address(seeds.as_slice(), &ASSOCIATED_TOKEN_PROGRAM_ID)
}

} // verus!
