//! Stateless checks on mints, metadata and holding accounts.

use vstd::prelude::*;
use vstd::arithmetic::power::{lemma_pow0, lemma_pow_increases, pow};
use crate::address::{associated_address, find_associated_address};
use crate::error::EntanglerError;
use crate::key::Key;
use crate::ledger::{Ledger, MintAccount, TokenAccount};

verus! {

/// Bits of the double-precision number one: the decimal-normalized supply of a
/// single unit.
pub const UI_ONE: u64 = 0x3FF0_0000_0000_0000;

/// The bits of the double-precision number that `spl_token::amount_to_ui_amount`
/// returns for a raw amount and a decimal scale.
pub uninterp spec fn ui_amount_bits(amount: u64, decimals: u8) -> u64;

/// Calls `spl_token::amount_to_ui_amount`, which divides the amount by ten to
/// the power of `decimals`, both taken as double-precision numbers, and hands
/// back the bits of the quotient. The outside function computes the power in
/// `usize`, where it has to fit. The contract claims only that the bits are a
/// function of the two arguments.
#[verifier::external_body]
fn amount_to_ui_amount(amount: u64, decimals: u8) -> (bits: u64)
    requires
        pow(10, decimals as nat) <= usize::MAX,
    ensures
        bits == ui_amount_bits(amount, decimals),
{
    spl_token::amount_to_ui_amount(amount, decimals).to_bits()
}

/// Whether ten to the power of `decimals` fits a machine word.
pub fn scale_fits(decimals: u8) -> (fits: bool)
    ensures
        fits == (pow(10, decimals as nat) <= usize::MAX),
{
    let mut power: usize = 1;
    let mut i: u8 = 0;
    proof {
        lemma_pow0(10);
    }
    while i < decimals
        invariant
            i <= decimals,
            power == pow(10, i as nat),
        decreases decimals - i,
    {
        assert(pow(10, (i + 1) as nat) == 10 * pow(10, i as nat)) by {
            reveal(pow);
        }
        match power.checked_mul(10) {
            Some(next) => {
                power = next;
            },
            None => {
                proof {
                    lemma_pow_increases(10, (i + 1) as nat, decimals as nat);
                }
                return false;
            },
        }
        i += 1;
    }
    true
}

/// The bits of the decimal-normalized supply, where the scale fits a machine
/// word.
pub open spec fn normalized_supply(supply: u64, decimals: u8) -> Option<u64> {
    if pow(10, decimals as nat) <= usize::MAX {
        Some(ui_amount_bits(supply, decimals))
    } else {
        None
    }
}

/// Computes the bits of the decimal-normalized supply of a mint.
pub fn normalize_supply(supply: u64, decimals: u8) -> (bits: Option<u64>)
    ensures
        bits == normalized_supply(supply, decimals),
{
    if scale_fits(decimals) {
        Some(amount_to_ui_amount(supply, decimals))
    } else {
        None
    }
}

/// A mint is supply-one when its raw supply is one, or its decimal-normalized
/// supply is.
pub open spec fn supply_is_one(supply: u64, normalized: Option<u64>) -> bool {
    supply == 1 || normalized == Some(UI_ONE)
}

/// Checks a raw supply together with the bits of its decimal-normalized form.
pub fn verify_supply_one_given(supply: u64, normalized: Option<u64>) -> (verdict: Result<
    (),
    EntanglerError,
>)
    ensures
        verdict == (if supply_is_one(supply, normalized) {
            Ok(())
        } else {
            Err(EntanglerError::MustHaveSupplyOne)
        }),
{
    if supply == 1 {
        return Ok(());
    }
    match normalized {
        Some(bits) => {
            if bits == UI_ONE {
                Ok(())
            } else {
                Err(EntanglerError::MustHaveSupplyOne)
            }
        },
        None => Err(EntanglerError::MustHaveSupplyOne),
    }
}

/// Fails with `MustHaveSupplyOne` unless the mint's raw supply is one or its
/// decimal-normalized supply is one.
pub fn verify_supply_one(mint: &MintAccount) -> (verdict: Result<(), EntanglerError>)
    ensures
        verdict == (if supply_is_one(mint.supply, normalized_supply(mint.supply, mint.decimals)) {
            Ok(())
        } else {
            Err(EntanglerError::MustHaveSupplyOne)
        }),
{
    verify_supply_one_given(mint.supply, normalize_supply(mint.supply, mint.decimals))
}

/// A metadata or edition record as the metadata registry describes it.
#[derive(Clone, Copy, Debug, PartialEq, Eq)]
pub struct MetadataAccount {
    /// The mint that the record's address is derived from.
    pub mint_ref: Key,
    /// Length of the record's data; zero where no record exists.
    pub data_len: u64,
}

/// What is wrong with one record taken as the record of `mint`: it does not
/// exist (`missing` says how that is called), or it belongs to another mint.
pub open spec fn record_fault(
    record: MetadataAccount,
    mint: Key,
    missing: EntanglerError,
) -> Option<EntanglerError> {
    if record.data_len == 0 {
        Some(missing)
    } else if record.mint_ref != mint {
        Some(EntanglerError::DerivedKeyInvalid)
    } else {
        None
    }
}

/// What is wrong with the metadata of `mint`, if anything: the metadata record
/// first, then the edition record where one is attached.
pub open spec fn metadata_fault(
    metadata: MetadataAccount,
    edition: Option<MetadataAccount>,
    mint: Key,
) -> Option<EntanglerError> {
    match record_fault(metadata, mint, EntanglerError::MetadataDoesntExist) {
        Some(fault) => Some(fault),
        None => match edition {
            Some(record) => record_fault(record, mint, EntanglerError::EditionDoesntExist),
            None => None,
        },
    }
}

fn check_record(record: &MetadataAccount, mint: &Key, missing: EntanglerError) -> (verdict: Result<
    (),
    EntanglerError,
>)
    ensures
        verdict == (match record_fault(*record, *mint, missing) {
            Some(fault) => Err(fault),
            None => Ok(()),
        }),
{
    if record.data_len == 0 {
        Err(missing)
    } else if record.mint_ref != *mint {
        Err(EntanglerError::DerivedKeyInvalid)
    } else {
        Ok(())
    }
}

/// Fails with `MetadataDoesntExist` where the metadata record is absent, with
/// `EditionDoesntExist` where an attached edition is, and with
/// `DerivedKeyInvalid` where either belongs to another mint.
pub fn verify_metadata(
    metadata: &MetadataAccount,
    edition: Option<&MetadataAccount>,
    mint: &Key,
) -> (verdict: Result<(), EntanglerError>)
    ensures
        verdict == (match metadata_fault(
            *metadata,
            match edition {
                Some(record) => Some(*record),
                None => None,
            },
            *mint,
        ) {
            Some(fault) => Err(fault),
            None => Ok(()),
        }),
{
    match check_record(metadata, mint, EntanglerError::MetadataDoesntExist) {
        Err(fault) => Err(fault),
        Ok(()) => match edition {
            Some(record) => check_record(record, mint, EntanglerError::EditionDoesntExist),
            None => Ok(()),
        },
    }
}

/// The account at `account` taken as the canonical holding account of `owner`
/// for `mint`, where `canonical` is the address derived for them: the stored
/// account, `UninitializedAccount` where there is none, `PublicKeyMismatch`
/// where its owner or mint differ or it does not live at the canonical address.
pub open spec fn associated_verdict(
    accounts: Map<Key, TokenAccount>,
    account: Key,
    owner: Key,
    mint: Key,
    canonical: Option<(Key, u8)>,
) -> Result<TokenAccount, EntanglerError> {
    if !accounts.contains_key(account) {
        Err(EntanglerError::UninitializedAccount)
    } else if accounts[account].owner != owner || accounts[account].mint != mint {
        Err(EntanglerError::PublicKeyMismatch)
    } else if !(canonical matches Some((address, _)) && address == account) {
        Err(EntanglerError::PublicKeyMismatch)
    } else {
        Ok(accounts[account])
    }
}

/// Checks an account against an owner, a mint and the address derived for them.
pub fn verify_associated_account_at(
    ledger: &Ledger,
    account: &Key,
    owner: &Key,
    mint: &Key,
    canonical: Option<(Key, u8)>,
) -> (verdict: Result<TokenAccount, EntanglerError>)
    ensures
        verdict == associated_verdict(ledger@, *account, *owner, *mint, canonical),
{
    let stored = match ledger.account(account) {
        Some(stored) => stored,
        None => {
            return Err(EntanglerError::UninitializedAccount);
        },
    };
    if stored.owner != *owner || stored.mint != *mint {
        return Err(EntanglerError::PublicKeyMismatch);
    }
    match canonical {
        Some((address, _)) => {
            if address == *account {
                Ok(stored)
            } else {
                Err(EntanglerError::PublicKeyMismatch)
            }
        },
        None => Err(EntanglerError::PublicKeyMismatch),
    }
}

/// Fails unless `account` is the canonical holding account of `owner` for
/// `mint`: it must exist, name that owner and that mint, and live at the
/// address derived for them.
pub fn verify_associated_account(ledger: &Ledger, account: &Key, owner: &Key, mint: &Key) -> (verdict:
    Result<TokenAccount, EntanglerError>)
    ensures
        verdict == associated_verdict(
            ledger@,
            *account,
            *owner,
            *mint,
            associated_address(*owner, *mint),
        ),
{
    let canonical = find_associated_address(owner, mint);
    verify_associated_account_at(ledger, account, owner, mint, canonical)
}

} // verus!
