//! Escrow vaults: the holding accounts that a pair record owns, and the
//! controlled ways in and out of them.

use vstd::prelude::*;
use crate::address::{escrow_address, find_escrow_address, Side};
use crate::error::EntanglerError;
use crate::key::Key;
use crate::ledger::{opened, transfer_outcome, transfer_refusal, Ledger};

verus! {

/// A vault of a pair: where it lives, the nonce of its address and its side.
#[derive(Clone, Copy, Debug, PartialEq, Eq)]
pub struct VaultHandle {
    pub address: Key,
    pub nonce: u8,
    pub side: Side,
}

/// The right to move funds out of the vaults of one pair. The registry issues
/// it for a registered pair, and it names that pair only.
pub struct SigningProof {
    pair: Key,
}

impl SigningProof {
    /// The pair on whose behalf the holder signs.
    pub closed spec fn signer(&self) -> Key {
        self.pair
    }

    /// Issues the signing proof of `pair`.
    pub(crate) fn issue(pair: Key) -> (issued: Self)
        ensures
            issued.signer() == pair,
    {
        SigningProof { pair }
    }

    /// The pair on whose behalf the holder signs.
    pub fn pair(&self) -> (pair: Key)
        ensures
            pair == self.signer(),
    {
        self.pair
    }
}

/// The asset that a side of the pair (`asset_a`, `asset_b`) holds.
pub open spec fn side_asset(asset_a: Key, asset_b: Key, side: Side) -> Key {
    match side {
        Side::A => asset_a,
        Side::B => asset_b,
    }
}

/// Makes sure that the holding account at `address` exists: an account that is
/// there already is left alone, otherwise an empty account for `mint` is opened,
/// owned by the pair record at `pair_key`.
pub fn ensure_vault_at(ledger: &mut Ledger, address: &Key, mint: &Key, pair_key: &Key)
    ensures
        final(ledger)@ == opened(old(ledger)@, *address, *pair_key, *mint),
{
    ledger.open_account(*address, *pair_key, *mint);
}

/// Makes sure that the vault of one side of the pair (`asset_a`, `asset_b`)
/// exists, at the address derived for that side and owned by the pair record at
/// `pair_key`. Returns `None`, with the ledger unchanged, where no address can
/// be derived.
pub fn ensure_vault(
    ledger: &mut Ledger,
    asset_a: &Key,
    asset_b: &Key,
    pair_key: &Key,
    side: Side,
) -> (vault: Option<VaultHandle>)
    ensures
        match escrow_address(*asset_a, *asset_b, side) {
            Some((address, nonce)) => vault == Some(VaultHandle { address, nonce, side })
                && final(ledger)@ == opened(
                old(ledger)@,
                address,
                *pair_key,
                side_asset(*asset_a, *asset_b, side),
            ),
            None => vault is None && final(ledger)@ == old(ledger)@,
        },
{
    match find_escrow_address(asset_a, asset_b, side) {
        Some((address, nonce)) => {
            let mint = match side {
                Side::A => asset_a,
                Side::B => asset_b,
            };
            ensure_vault_at(ledger, &address, mint, pair_key);
            Some(VaultHandle { address, nonce, side })
        },
        None => None,
    }
}

/// Moves `amount` from `source` into the vault. `mover_authority` must hold
/// transfer authority over `source`.
pub fn transfer_in(
    ledger: &mut Ledger,
    vault: &Key,
    source: &Key,
    amount: u64,
    mover_authority: &Key,
) -> (done: Result<(), EntanglerError>)
    ensures
        done == (match transfer_refusal(old(ledger)@, *source, *vault, *mover_authority, amount) {
            Some(refusal) => Err(refusal),
            None => Ok(()),
        }),
        final(ledger)@ == (match transfer_outcome(
            old(ledger)@,
            *source,
            *vault,
            *mover_authority,
            amount,
        ) {
            Ok(accounts) => accounts,
            Err(_) => old(ledger)@,
        }),
{
    ledger.transfer(source, vault, mover_authority, amount)
}

/// Moves `amount` out of the vault into `destination`, on the signature of the
/// pair that the proof names: the vault must be owned by that pair's record.
pub fn transfer_out(
    ledger: &mut Ledger,
    vault: &Key,
    destination: &Key,
    amount: u64,
    pair_signing_proof: &SigningProof,
) -> (done: Result<(), EntanglerError>)
    ensures
        done == (match transfer_refusal(
            old(ledger)@,
            *vault,
            *destination,
            pair_signing_proof.signer(),
            amount,
        ) {
            Some(refusal) => Err(refusal),
            None => Ok(()),
        }),
        final(ledger)@ == (match transfer_outcome(
            old(ledger)@,
            *vault,
            *destination,
            pair_signing_proof.signer(),
            amount,
        ) {
            Ok(accounts) => accounts,
            Err(_) => old(ledger)@,
        }),
{
    let signer = pair_signing_proof.pair();
    ledger.transfer(vault, destination, &signer, amount)
}

} // verus!
