//! Swapping: the holder of one asset of a pair hands it in and receives the
//! other, after paying the price where one is due.

use vstd::prelude::*;
use crate::address::{address_of, associated_address, find_associated_address};
use crate::error::EntanglerError;
use crate::key::Key;
use crate::ledger::{opened, transfer_outcome, MintAccount, TokenAccount};
use crate::state::{World, WorldView, XNFTentangler};
use crate::validation::{
    associated_verdict, metadata_fault, verify_associated_account_at, verify_metadata,
    MetadataAccount,
};
use crate::vault::{transfer_in, transfer_out};

verus! {

/// The accounts of a swap request.
#[derive(Clone, Copy, Debug, PartialEq, Eq)]
pub struct SwapxNFT {
    /// The currency of the payment; must be the pair's.
    pub treasury_mint: Key,
    /// The holder, who receives the replacement.
    pub payer: Key,
    /// The holder's account of the treasury currency.
    pub payment_account: Key,
    /// Who signs for the payment.
    pub payment_transfer_authority: Key,
    /// The holder's account of the asset handed in.
    pub token: Key,
    /// The asset handed in.
    pub xnft_mint: MintAccount,
    /// Metadata of the asset asked for.
    pub replacement_token_metadata: MetadataAccount,
    /// The asset asked for.
    pub replacement_xnft_mint: MintAccount,
    /// The holder's account that receives the asset asked for.
    pub replacement_token: Key,
    /// Who signs for the move out of `token`.
    pub transfer_authority: Key,
    /// The pair record.
    pub xnft_entangler: Key,
}

/// What the derivations say about a swap request.
#[derive(Clone, Copy, Debug, PartialEq, Eq)]
pub struct SwapFacts {
    /// Address and nonce of the holder's canonical account of the asset asked for.
    pub replacement_token: Option<(Key, u8)>,
    /// Address and nonce of the authority's canonical account of the treasury
    /// currency, where the pair exists.
    pub treasury_account: Option<(Key, u8)>,
}

/// What a swap reports back.
#[derive(Clone, Copy, Debug, PartialEq, Eq)]
pub struct SwapResult {
    /// The price that was paid in this swap, if one was due.
    pub payment: Option<u64>,
    /// The vault that took the asset handed in.
    pub deposit: Key,
    /// The vault that gave the other asset out.
    pub release: Key,
}

/// The facts of a swap request.
pub open spec fn swap_facts(world: WorldView, ctx: SwapxNFT) -> SwapFacts {
    SwapFacts {
        replacement_token: associated_address(ctx.payer, ctx.replacement_xnft_mint.key),
        treasury_account: if world.pairs.contains_key(ctx.xnft_entangler) {
            associated_address(
                world.pairs[ctx.xnft_entangler].authority,
                world.pairs[ctx.xnft_entangler].treasury_mint,
            )
        } else {
            None
        },
    }
}

/// Derives the addresses of a swap request.
pub fn resolve_swap(world: &World, ctx: &SwapxNFT) -> (facts: SwapFacts)
    ensures
        facts == swap_facts(world@, *ctx),
{
    SwapFacts {
        replacement_token: find_associated_address(&ctx.payer, &ctx.replacement_xnft_mint.key),
        treasury_account: match world.pair(&ctx.xnft_entangler) {
            Some(pair) => find_associated_address(&pair.authority, &pair.treasury_mint),
            None => None,
        },
    }
}

/// The price that the next swap of the pair has to pay: the pair's price, where
/// it has one and either asks for it every time or was never paid.
pub open spec fn payment_due(pair: XNFTentangler) -> Option<u64> {
    if pair.price is Some && (pair.pays_every_time || !pair.paid) {
        pair.price
    } else {
        None
    }
}

/// The other asset of the pair.
pub open spec fn counterpart(pair: XNFTentangler, held: Key) -> Key {
    if held == pair.master_mint_a {
        pair.master_mint_b
    } else {
        pair.master_mint_a
    }
}

/// The vault that takes the asset handed in.
pub open spec fn deposit_vault(pair: XNFTentangler, held: Key) -> Key {
    if held == pair.master_mint_a {
        pair.xnft_a_escrow
    } else {
        pair.xnft_b_escrow
    }
}

/// The vault that gives the other asset out.
pub open spec fn release_vault(pair: XNFTentangler, held: Key) -> Key {
    if held == pair.master_mint_a {
        pair.xnft_b_escrow
    } else {
        pair.xnft_a_escrow
    }
}

/// Why a swap request is refused before the ledger is touched, if it is. The
/// checks come in this order: the pair record and its currency, the holder's
/// whole unit, the asset handed in, the asset asked for, its metadata.
pub open spec fn swap_refusal(world: WorldView, ctx: SwapxNFT) -> Option<EntanglerError> {
    let pair = world.pairs[ctx.xnft_entangler];
    let held = world.accounts[ctx.token];
    if !world.pairs.contains_key(ctx.xnft_entangler) {
        Some(EntanglerError::UninitializedAccount)
    } else if pair.treasury_mint != ctx.treasury_mint {
        Some(EntanglerError::PublicKeyMismatch)
    } else if !world.accounts.contains_key(ctx.token) {
        Some(EntanglerError::UninitializedAccount)
    } else if held.mint != ctx.xnft_mint.key || held.amount != ctx.xnft_mint.supply {
        Some(EntanglerError::InvalidTokenAmount)
    } else if ctx.xnft_mint.key != pair.master_mint_a && ctx.xnft_mint.key != pair.master_mint_b {
        Some(EntanglerError::InvalidMint)
    } else if ctx.replacement_xnft_mint.key != counterpart(pair, ctx.xnft_mint.key) {
        Some(EntanglerError::InvalidMint)
    } else {
        metadata_fault(ctx.replacement_token_metadata, None, ctx.replacement_xnft_mint.key)
    }
}

/// The ledger once the holder's receiving account is provisioned: it is opened
/// where it is the holder's canonical account of the asset asked for and does
/// not exist yet.
pub open spec fn provisioned(
    accounts: Map<Key, TokenAccount>,
    ctx: SwapxNFT,
    facts: SwapFacts,
) -> Map<Key, TokenAccount> {
    if facts.replacement_token is Some && address_of(facts.replacement_token)
        == ctx.replacement_token {
        opened(accounts, ctx.replacement_token, ctx.payer, ctx.replacement_xnft_mint.key)
    } else {
        accounts
    }
}

/// The ledger after the price due was paid from the holder's payment account
/// into the authority's canonical account of the treasury currency, which is
/// opened where it does not exist; the ledger as it is where nothing is due; or
/// why the payment fails.
pub open spec fn paid_ledger(
    accounts: Map<Key, TokenAccount>,
    pair: XNFTentangler,
    ctx: SwapxNFT,
    facts: SwapFacts,
) -> Result<Map<Key, TokenAccount>, EntanglerError> {
    match payment_due(pair) {
        None => Ok(accounts),
        Some(price) => if facts.treasury_account is None {
            Err(EntanglerError::DerivedKeyInvalid)
        } else {
            let treasury = address_of(facts.treasury_account);
            transfer_outcome(
                opened(accounts, treasury, pair.authority, pair.treasury_mint),
                ctx.payment_account,
                treasury,
                ctx.payment_transfer_authority,
                price,
            )
        },
    }
}

/// The ledger after the two legs of the exchange: the whole supply of the asset
/// handed in moves from the holder's account into its vault, then the whole
/// supply of the other asset moves from the opposite vault into the holder's
/// receiving account, signed for by the pair.
pub open spec fn exchanged(
    accounts: Map<Key, TokenAccount>,
    pair: XNFTentangler,
    ctx: SwapxNFT,
) -> Result<Map<Key, TokenAccount>, EntanglerError> {
    match transfer_outcome(
        accounts,
        ctx.token,
        deposit_vault(pair, ctx.xnft_mint.key),
        ctx.transfer_authority,
        ctx.xnft_mint.supply,
    ) {
        Err(refusal) => Err(refusal),
        Ok(deposited) => transfer_outcome(
            deposited,
            release_vault(pair, ctx.xnft_mint.key),
            ctx.replacement_token,
            ctx.xnft_entangler,
            ctx.replacement_xnft_mint.supply,
        ),
    }
}

/// The ledger after a swap that passed the first checks: the receiving account
/// is provisioned and checked, the price is paid, the assets are exchanged; or
/// the first failure among these.
pub open spec fn swap_ledger(
    accounts: Map<Key, TokenAccount>,
    pair: XNFTentangler,
    ctx: SwapxNFT,
    facts: SwapFacts,
) -> Result<Map<Key, TokenAccount>, EntanglerError> {
    let ready = provisioned(accounts, ctx, facts);
    match associated_verdict(
        ready,
        ctx.replacement_token,
        ctx.payer,
        ctx.replacement_xnft_mint.key,
        facts.replacement_token,
    ) {
        Err(fault) => Err(fault),
        Ok(_) => match paid_ledger(ready, pair, ctx, facts) {
            Err(refusal) => Err(refusal),
            Ok(paid) => exchanged(paid, pair, ctx),
        },
    }
}

/// What a successful swap of the pair reports back.
pub open spec fn swap_report(pair: XNFTentangler, ctx: SwapxNFT) -> SwapResult {
    SwapResult {
        payment: payment_due(pair),
        deposit: deposit_vault(pair, ctx.xnft_mint.key),
        release: release_vault(pair, ctx.xnft_mint.key),
    }
}

/// The pair record after a swap: it is marked as paid once a price was paid.
pub open spec fn swapped_record(pair: XNFTentangler) -> XNFTentangler {
    XNFTentangler { paid: pair.paid || payment_due(pair) is Some, ..pair }
}

/// What a swap request comes to: the world after payment and exchange, or the
/// refusal.
pub open spec fn swap_outcome(world: WorldView, ctx: SwapxNFT, facts: SwapFacts) -> Result<
    WorldView,
    EntanglerError,
> {
    let pair = world.pairs[ctx.xnft_entangler];
    match swap_refusal(world, ctx) {
        Some(refusal) => Err(refusal),
        None => match swap_ledger(world.accounts, pair, ctx, facts) {
            Err(refusal) => Err(refusal),
            Ok(accounts) => Ok(
                WorldView {
                    accounts,
                    pairs: world.pairs.insert(ctx.xnft_entangler, swapped_record(pair)),
                    suspended: world.suspended,
                },
            ),
        },
    }
}

/// Carries out the swap of a request whose facts are given. Either the payment
/// and both legs of the exchange happen, or nothing does.
pub fn swap_xnft_at(world: &mut World, ctx: &SwapxNFT, facts: &SwapFacts) -> (swapped: Result<
    SwapResult,
    EntanglerError,
>)
    ensures
        swap_outcome(old(world)@, *ctx, *facts) == (match swapped {
            Ok(_) => Ok(final(world)@),
            Err(refusal) => Err(refusal),
        }),
        swapped matches Ok(result) ==> result == swap_report(
            old(world)@.pairs[ctx.xnft_entangler],
            *ctx,
        ),
        swapped is Err ==> final(world)@ == old(world)@,
{
    let pair = match world.pair(&ctx.xnft_entangler) {
        Some(pair) => pair,
        None => {
            return Err(EntanglerError::UninitializedAccount);
        },
    };
    if pair.treasury_mint != ctx.treasury_mint {
        return Err(EntanglerError::PublicKeyMismatch);
    }
    let held = match world.account(&ctx.token) {
        Some(held) => held,
        None => {
            return Err(EntanglerError::UninitializedAccount);
        },
    };
    if held.mint != ctx.xnft_mint.key || held.amount != ctx.xnft_mint.supply {
        return Err(EntanglerError::InvalidTokenAmount);
    }
    let holds_a = ctx.xnft_mint.key == pair.master_mint_a;
    if !holds_a && ctx.xnft_mint.key != pair.master_mint_b {
        return Err(EntanglerError::InvalidMint);
    }
    let other = if holds_a {
        pair.master_mint_b
    } else {
        pair.master_mint_a
    };
    if ctx.replacement_xnft_mint.key != other {
        return Err(EntanglerError::InvalidMint);
    }
    if let Err(fault) = verify_metadata(
        &ctx.replacement_token_metadata,
        None,
        &ctx.replacement_xnft_mint.key,
    ) {
        return Err(fault);
    }
    let mut ledger = world.ledger().duplicate();
    if let Some((canonical, _)) = facts.replacement_token {
        if canonical == ctx.replacement_token {
            ledger.open_account(canonical, ctx.payer, ctx.replacement_xnft_mint.key);
        }
    }
    if let Err(fault) = verify_associated_account_at(
        &ledger,
        &ctx.replacement_token,
        &ctx.payer,
        &ctx.replacement_xnft_mint.key,
        facts.replacement_token,
    ) {
        return Err(fault);
    }
    let due = match pair.price {
        Some(price) => if pair.pays_every_time || !pair.paid {
            Some(price)
        } else {
            None
        },
        None => None,
    };
    if let Some(price) = due {
        let treasury = match facts.treasury_account {
            Some((treasury, _)) => treasury,
            None => {
                return Err(EntanglerError::DerivedKeyInvalid);
            },
        };
        ledger.open_account(treasury, pair.authority, pair.treasury_mint);
        if let Err(refusal) = ledger.transfer(
            &ctx.payment_account,
            &treasury,
            &ctx.payment_transfer_authority,
            price,
        ) {
            return Err(refusal);
        }
    }
    let (deposit, release) = if holds_a {
        (pair.xnft_a_escrow, pair.xnft_b_escrow)
    } else {
        (pair.xnft_b_escrow, pair.xnft_a_escrow)
    };
    if let Err(refusal) = transfer_in(
        &mut ledger,
        &deposit,
        &ctx.token,
        ctx.xnft_mint.supply,
        &ctx.transfer_authority,
    ) {
        return Err(refusal);
    }
    let signing = match world.signing_proof(&ctx.xnft_entangler) {
        Some(signing) => signing,
        None => {
            return Err(EntanglerError::UninitializedAccount);
        },
    };
    if let Err(refusal) = transfer_out(
        &mut ledger,
        &release,
        &ctx.replacement_token,
        ctx.replacement_xnft_mint.supply,
        &signing,
    ) {
        return Err(refusal);
    }
    let record = XNFTentangler { paid: pair.paid || due.is_some(), ..pair };
    world.settle(ledger, ctx.xnft_entangler, record);
    Ok(SwapResult { payment: due, deposit, release })
}

/// Swaps the asset that the holder hands in for the other asset of the pair.
/// Fails with `InvalidTokenAmount` unless the holder's account holds the whole
/// supply of the asset handed in; with `InvalidMint` unless that asset is one of
/// the pair's two and the asset asked for is the other; with the metadata
/// check's error; with the account check's error unless the receiving account is
/// the holder's canonical one; and with the ledger's refusal of the payment or
/// of either leg. On failure nothing has changed.
pub fn swap_xnft(world: &mut World, ctx: &SwapxNFT) -> (swapped: Result<SwapResult, EntanglerError>)
    ensures
        swap_outcome(old(world)@, *ctx, swap_facts(old(world)@, *ctx)) == (match swapped {
            Ok(_) => Ok(final(world)@),
            Err(refusal) => Err(refusal),
        }),
        swapped matches Ok(result) ==> result == swap_report(
            old(world)@.pairs[ctx.xnft_entangler],
            *ctx,
        ),
        swapped is Err ==> final(world)@ == old(world)@,
{
    let facts = resolve_swap(world, ctx);
    swap_xnft_at(world, ctx, &facts)
}

} // verus!
