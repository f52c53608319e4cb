//! Creating an entangled pair: the record, its two vaults, and the deposit of
//! the second asset.

use vstd::prelude::*;
use crate::address::{
    address_of, associated_address, escrow_address, find_associated_address, find_escrow_address,
    find_pair_address, nonce_of, pair_address, Side,
};
use crate::error::EntanglerError;
use crate::key::Key;
use crate::ledger::{opened, transfer_outcome, MintAccount, TokenAccount};
use crate::state::{World, WorldView, XNFTentangler};
use crate::validation::{
    associated_verdict, metadata_fault, normalize_supply, normalized_supply, supply_is_one,
    verify_associated_account_at, verify_metadata, verify_supply_one_given, MetadataAccount,
};
use crate::vault::{ensure_vault_at, transfer_in};

verus! {

/// The accounts of a creation request.
#[derive(Clone, Copy, Debug, PartialEq, Eq)]
pub struct CreateEntangler {
    /// The currency in which swaps of the pair will be paid for.
    pub treasury_mint: Key,
    /// The first asset.
    pub mint_a: MintAccount,
    /// Metadata of the first asset.
    pub metadata_a: MetadataAccount,
    /// Edition record of the first asset; attached where it holds data.
    pub master_edition_a: MetadataAccount,
    /// The second asset, which goes into escrow.
    pub mint_b: MintAccount,
    /// The initiator's holding account of the second asset.
    pub token_b: Key,
    /// Metadata of the second asset.
    pub metadata_b: MetadataAccount,
    /// Edition record of the second asset; attached where it holds data.
    pub master_edition_b: MetadataAccount,
    /// The initiator.
    pub payer: Key,
    /// Who signs for the move out of `token_b`.
    pub transfer_authority: Key,
    /// Who will be allowed to update the pair.
    pub authority: Key,
}

/// What the derivations and the ledger's arithmetic say about a creation
/// request.
#[derive(Clone, Copy, Debug, PartialEq, Eq)]
pub struct CreateFacts {
    /// Address and nonce of the record for (`mint_a`, `mint_b`).
    pub pair: Option<(Key, u8)>,
    /// Address and nonce of the record for (`mint_b`, `mint_a`).
    pub reverse: Option<(Key, u8)>,
    /// Address and nonce of the first asset's vault.
    pub escrow_a: Option<(Key, u8)>,
    /// Address and nonce of the second asset's vault.
    pub escrow_b: Option<(Key, u8)>,
    /// Address and nonce of the initiator's canonical account of the second asset.
    pub token_b: Option<(Key, u8)>,
    /// Bits of the first asset's decimal-normalized supply.
    pub supply_a: Option<u64>,
    /// Bits of the second asset's decimal-normalized supply.
    pub supply_b: Option<u64>,
}

/// The facts of a creation request.
pub open spec fn create_facts(ctx: CreateEntangler) -> CreateFacts {
    CreateFacts {
        pair: pair_address(ctx.mint_a.key, ctx.mint_b.key),
        reverse: pair_address(ctx.mint_b.key, ctx.mint_a.key),
        escrow_a: escrow_address(ctx.mint_a.key, ctx.mint_b.key, Side::A),
        escrow_b: escrow_address(ctx.mint_a.key, ctx.mint_b.key, Side::B),
        token_b: associated_address(ctx.payer, ctx.mint_b.key),
        supply_a: normalized_supply(ctx.mint_a.supply, ctx.mint_a.decimals),
        supply_b: normalized_supply(ctx.mint_b.supply, ctx.mint_b.decimals),
    }
}

/// Derives the addresses and normalizes the supplies of a creation request.
pub fn resolve_create(ctx: &CreateEntangler) -> (facts: CreateFacts)
    ensures
        facts == create_facts(*ctx),
{
    CreateFacts {
        pair: find_pair_address(&ctx.mint_a.key, &ctx.mint_b.key),
        reverse: find_pair_address(&ctx.mint_b.key, &ctx.mint_a.key),
        escrow_a: find_escrow_address(&ctx.mint_a.key, &ctx.mint_b.key, Side::A),
        escrow_b: find_escrow_address(&ctx.mint_a.key, &ctx.mint_b.key, Side::B),
        token_b: find_associated_address(&ctx.payer, &ctx.mint_b.key),
        supply_a: normalize_supply(ctx.mint_a.supply, ctx.mint_a.decimals),
        supply_b: normalize_supply(ctx.mint_b.supply, ctx.mint_b.decimals),
    }
}

/// An edition record counts as attached where it holds data.
pub open spec fn attached(edition: MetadataAccount) -> Option<MetadataAccount> {
    if edition.data_len > 0 {
        Some(edition)
    } else {
        None
    }
}

/// Why a creation request is refused before the ledger is touched, if it is.
/// The checks come in this order: the reverse record, the record itself, the
/// vault addresses, the two supplies, the two metadata records, the initiator's
/// account.
pub open spec fn create_refusal(
    world: WorldView,
    ctx: CreateEntangler,
    facts: CreateFacts,
) -> Option<EntanglerError> {
    if facts.reverse is Some && world.pairs.contains_key(address_of(facts.reverse)) {
        Some(EntanglerError::EntangledPairExists)
    } else if facts.pair is None {
        Some(EntanglerError::BumpSeedNotInHashMap)
    } else if world.pairs.contains_key(address_of(facts.pair)) {
        Some(EntanglerError::EntangledPairExists)
    } else if facts.escrow_a is None || facts.escrow_b is None {
        Some(EntanglerError::BumpSeedNotInHashMap)
    } else if !supply_is_one(ctx.mint_a.supply, facts.supply_a) || !supply_is_one(
        ctx.mint_b.supply,
        facts.supply_b,
    ) {
        Some(EntanglerError::MustHaveSupplyOne)
    } else if metadata_fault(ctx.metadata_a, attached(ctx.master_edition_a), ctx.mint_a.key)
        is Some {
        metadata_fault(ctx.metadata_a, attached(ctx.master_edition_a), ctx.mint_a.key)
    } else if metadata_fault(ctx.metadata_b, attached(ctx.master_edition_b), ctx.mint_b.key)
        is Some {
        metadata_fault(ctx.metadata_b, attached(ctx.master_edition_b), ctx.mint_b.key)
    } else {
        match associated_verdict(
            world.accounts,
            ctx.token_b,
            ctx.payer,
            ctx.mint_b.key,
            facts.token_b,
        ) {
            Err(fault) => Some(fault),
            Ok(_) => None,
        }
    }
}

/// The ledger after both vaults were made sure of and the whole supply of the
/// second asset has moved from the initiator's account into its vault; or why
/// the ledger refuses that move.
pub open spec fn create_ledger(
    accounts: Map<Key, TokenAccount>,
    ctx: CreateEntangler,
    facts: CreateFacts,
) -> Result<Map<Key, TokenAccount>, EntanglerError> {
    let pair = address_of(facts.pair);
    let escrow_a = address_of(facts.escrow_a);
    let escrow_b = address_of(facts.escrow_b);
    let with_a = opened(accounts, escrow_a, pair, ctx.mint_a.key);
    let with_both = opened(with_a, escrow_b, pair, ctx.mint_b.key);
    transfer_outcome(with_both, ctx.token_b, escrow_b, ctx.transfer_authority, ctx.mint_b.supply)
}

/// The record that a creation request writes.
pub open spec fn created_record(
    ctx: CreateEntangler,
    facts: CreateFacts,
    price: Option<u64>,
    pays_every_time: bool,
) -> XNFTentangler {
    XNFTentangler {
        treasury_mint: ctx.treasury_mint,
        master_mint_a: ctx.mint_a.key,
        master_mint_b: ctx.mint_b.key,
        xnft_a_escrow: address_of(facts.escrow_a),
        xnft_b_escrow: address_of(facts.escrow_b),
        authority: ctx.authority,
        bump: nonce_of(facts.pair),
        escrow_a_bump: nonce_of(facts.escrow_a),
        escrow_b_bump: nonce_of(facts.escrow_b),
        price,
        paid: false,
        pays_every_time,
    }
}

/// What a creation request comes to: the world with the new record, the vaults,
/// the deposit and the suspension mark of the second asset; or the refusal.
pub open spec fn create_outcome(
    world: WorldView,
    ctx: CreateEntangler,
    facts: CreateFacts,
    price: Option<u64>,
    pays_every_time: bool,
) -> Result<WorldView, EntanglerError> {
    match create_refusal(world, ctx, facts) {
        Some(refusal) => Err(refusal),
        None => match create_ledger(world.accounts, ctx, facts) {
            Err(refusal) => Err(refusal),
            Ok(accounts) => Ok(
                WorldView {
                    accounts,
                    pairs: world.pairs.insert(
                        address_of(facts.pair),
                        created_record(ctx, facts, price, pays_every_time),
                    ),
                    suspended: world.suspended.insert(ctx.mint_b.key, true),
                },
            ),
        },
    }
}

/// Creates the pair of a request whose facts are given. Either everything
/// happens (the record is written, both vaults exist, the second asset sits in
/// its vault and is marked as suspended) or nothing does.
pub fn create_entangler_at(
    world: &mut World,
    ctx: &CreateEntangler,
    facts: &CreateFacts,
    price: Option<u64>,
    pays_every_time: bool,
) -> (created: Result<XNFTentangler, EntanglerError>)
    ensures
        create_outcome(old(world)@, *ctx, *facts, price, pays_every_time) == (match created {
            Ok(_) => Ok(final(world)@),
            Err(refusal) => Err(refusal),
        }),
        created matches Ok(record) ==> record == created_record(
            *ctx,
            *facts,
            price,
            pays_every_time,
        ),
        created is Err ==> final(world)@ == old(world)@,
{
    if let Some((reverse, _)) = facts.reverse {
        if world.pair(&reverse).is_some() {
            return Err(EntanglerError::EntangledPairExists);
        }
    }
    let (pair_key, bump) = match facts.pair {
        Some(found) => found,
        None => {
            return Err(EntanglerError::BumpSeedNotInHashMap);
        },
    };
    if world.pair(&pair_key).is_some() {
        return Err(EntanglerError::EntangledPairExists);
    }
    let (escrow_a, escrow_a_bump) = match facts.escrow_a {
        Some(found) => found,
        None => {
            return Err(EntanglerError::BumpSeedNotInHashMap);
        },
    };
    let (escrow_b, escrow_b_bump) = match facts.escrow_b {
        Some(found) => found,
        None => {
            return Err(EntanglerError::BumpSeedNotInHashMap);
        },
    };
    if let Err(refusal) = verify_supply_one_given(ctx.mint_a.supply, facts.supply_a) {
        return Err(refusal);
    }
    if let Err(refusal) = verify_supply_one_given(ctx.mint_b.supply, facts.supply_b) {
        return Err(refusal);
    }
    let edition_a = if ctx.master_edition_a.data_len > 0 {
        Some(&ctx.master_edition_a)
    } else {
        None
    };
    let edition_b = if ctx.master_edition_b.data_len > 0 {
        Some(&ctx.master_edition_b)
    } else {
        None
    };
    if let Err(refusal) = verify_metadata(&ctx.metadata_a, edition_a, &ctx.mint_a.key) {
        return Err(refusal);
    }
    if let Err(refusal) = verify_metadata(&ctx.metadata_b, edition_b, &ctx.mint_b.key) {
        return Err(refusal);
    }
    if let Err(refusal) = verify_associated_account_at(
        world.ledger(),
        &ctx.token_b,
        &ctx.payer,
        &ctx.mint_b.key,
        facts.token_b,
    ) {
        return Err(refusal);
    }
    let mut ledger = world.ledger().duplicate();
    ensure_vault_at(&mut ledger, &escrow_a, &ctx.mint_a.key, &pair_key);
    ensure_vault_at(&mut ledger, &escrow_b, &ctx.mint_b.key, &pair_key);
    if let Err(refusal) = transfer_in(
        &mut ledger,
        &escrow_b,
        &ctx.token_b,
        ctx.mint_b.supply,
        &ctx.transfer_authority,
    ) {
        return Err(refusal);
    }
    let record = XNFTentangler {
        treasury_mint: ctx.treasury_mint,
        master_mint_a: ctx.mint_a.key,
        master_mint_b: ctx.mint_b.key,
        xnft_a_escrow: escrow_a,
        xnft_b_escrow: escrow_b,
        authority: ctx.authority,
        bump,
        escrow_a_bump,
        escrow_b_bump,
        price,
        paid: false,
        pays_every_time,
    };
    world.settle(ledger, pair_key, record);
    world.set_suspended(ctx.mint_b.key, true);
    Ok(record)
}

/// Entangles `mint_a` with `mint_b`. Fails with `EntangledPairExists` where the
/// pair is registered already, in this order or the reverse one; with
/// `BumpSeedNotInHashMap` where an address of the pair cannot be derived; with
/// `MustHaveSupplyOne` unless both mints are supply-one; with the metadata check's
/// error; with the account check's error unless `token_b` is the initiator's
/// canonical account of the second asset; and with the ledger's refusal of the
/// deposit. On failure nothing has changed.
pub fn create_entangler(
    world: &mut World,
    ctx: &CreateEntangler,
    price: Option<u64>,
    pays_every_time: bool,
) -> (created: Result<XNFTentangler, EntanglerError>)
    ensures
        create_outcome(old(world)@, *ctx, create_facts(*ctx), price, pays_every_time) == (
        match created {
            Ok(_) => Ok(final(world)@),
            Err(refusal) => Err(refusal),
        }),
        created matches Ok(record) ==> record == created_record(
            *ctx,
            create_facts(*ctx),
            price,
            pays_every_time,
        ),
        created is Err ==> final(world)@ == old(world)@,
{
    let facts = resolve_create(ctx);
    create_entangler_at(world, ctx, &facts, price, pays_every_time)
}

} // verus!
