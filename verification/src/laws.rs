//! What holds of the operations, over every world and every request.

use vstd::prelude::*;
use crate::address::{address_of, nonce_of, pair_address};
use crate::authority::{update_refusal, updated_record, UpdateEntangler};
use crate::creation::{
    create_facts, create_outcome, created_record, CreateEntangler, CreateFacts,
};
use crate::error::EntanglerError;
use crate::key::Key;
use crate::ledger::{transfer_outcome, transfer_refusal, transferred, TokenAccount};
use crate::state::{WorldView, XNFTentangler};
use crate::swap::{
    counterpart, deposit_vault, exchanged, paid_ledger, payment_due, provisioned, release_vault,
    swap_outcome, swap_refusal, swapped_record, SwapFacts, SwapxNFT,
};
use crate::validation::{associated_verdict, normalized_supply, supply_is_one, UI_ONE};

verus! {

/// Two records entangle the same unordered pair of assets.
pub open spec fn same_assets(first: XNFTentangler, second: XNFTentangler) -> bool {
    ||| first.master_mint_a == second.master_mint_a && first.master_mint_b == second.master_mint_b
    ||| first.master_mint_a == second.master_mint_b && first.master_mint_b == second.master_mint_a
}

/// Every record lives at the address derived from its two assets in their
/// order, and no two records entangle the same unordered pair.
pub open spec fn registry_sound(world: WorldView) -> bool {
    &&& forall|at: Key| #[trigger]
        world.pairs.contains_key(at) ==> pair_address(
            world.pairs[at].master_mint_a,
            world.pairs[at].master_mint_b,
        ) == Some((at, world.pairs[at].bump))
    &&& forall|at: Key, other: Key|
        #![trigger world.pairs.contains_key(at), world.pairs.contains_key(other)]
        world.pairs.contains_key(at) && world.pairs.contains_key(other) && at != other
            ==> !same_assets(world.pairs[at], world.pairs[other])
}

/// Once (A, B) is entangled, a request to entangle (B, A), or (A, B) again,
/// fails with `EntangledPairExists`.
pub proof fn law_entangled_pair_is_refused(
    world: WorldView,
    first: CreateEntangler,
    first_price: Option<u64>,
    first_pays_every_time: bool,
    second: CreateEntangler,
    second_price: Option<u64>,
    second_pays_every_time: bool,
)
    requires
        create_outcome(world, first, create_facts(first), first_price, first_pays_every_time)
            is Ok,
        ({
            ||| second.mint_a.key == first.mint_b.key && second.mint_b.key == first.mint_a.key
            ||| second.mint_a.key == first.mint_a.key && second.mint_b.key == first.mint_b.key
        }),
    ensures
        create_outcome(
            create_outcome(
                world,
                first,
                create_facts(first),
                first_price,
                first_pays_every_time,
            )->Ok_0,
            second,
            create_facts(second),
            second_price,
            second_pays_every_time,
        ) == Err::<WorldView, EntanglerError>(EntanglerError::EntangledPairExists),
{
}

/// A creation keeps the registry sound.
pub proof fn law_creation_keeps_registry_sound(
    world: WorldView,
    ctx: CreateEntangler,
    price: Option<u64>,
    pays_every_time: bool,
)
    requires
        registry_sound(world),
        create_outcome(world, ctx, create_facts(ctx), price, pays_every_time) is Ok,
    ensures
        registry_sound(create_outcome(world, ctx, create_facts(ctx), price, pays_every_time)->Ok_0),
{
    let facts = create_facts(ctx);
    let after = create_outcome(world, ctx, facts, price, pays_every_time)->Ok_0;
    let here = address_of(facts.pair);
    assert(facts.pair == Some((here, nonce_of(facts.pair))));
    assert forall|at: Key, other: Key|
        after.pairs.contains_key(at) && after.pairs.contains_key(other) && at != other implies !same_assets(
        after.pairs[at],
        after.pairs[other],
    ) by {
        if at == here {
            assert(world.pairs.contains_key(other));
        } else if other == here {
            assert(world.pairs.contains_key(at));
        } else {
            assert(world.pairs.contains_key(at) && world.pairs.contains_key(other));
        }
    }
}

/// A swap keeps the registry sound.
pub proof fn law_swap_keeps_registry_sound(world: WorldView, ctx: SwapxNFT, facts: SwapFacts)
    requires
        registry_sound(world),
        swap_outcome(world, ctx, facts) is Ok,
    ensures
        registry_sound(swap_outcome(world, ctx, facts)->Ok_0),
{
    let after = swap_outcome(world, ctx, facts)->Ok_0;
    assert forall|at: Key| #[trigger] after.pairs.contains_key(at) implies world.pairs.contains_key(
        at,
    ) by {}
}

/// An update keeps the registry sound.
pub proof fn law_update_keeps_registry_sound(
    world: WorldView,
    ctx: UpdateEntangler,
    price: Option<u64>,
    pays_every_time: bool,
)
    requires
        registry_sound(world),
        update_refusal(world, ctx) is None,
    ensures
        registry_sound(
            WorldView {
                pairs: world.pairs.insert(
                    ctx.xnft_entangler,
                    updated_record(world.pairs[ctx.xnft_entangler], ctx, price, pays_every_time),
                ),
                ..world
            },
        ),
{
    let after = WorldView {
        pairs: world.pairs.insert(
            ctx.xnft_entangler,
            updated_record(world.pairs[ctx.xnft_entangler], ctx, price, pays_every_time),
        ),
        ..world
    };
    assert forall|at: Key| #[trigger] after.pairs.contains_key(at) implies world.pairs.contains_key(
        at,
    ) by {}
}

/// A raw supply of one makes a mint supply-one, whatever its decimal scale.
pub proof fn law_raw_supply_of_one_suffices(decimals: u8)
    ensures
        supply_is_one(1, normalized_supply(1, decimals)),
{
}

/// A creation of two mints with a raw supply of one each never fails with
/// `MustHaveSupplyOne`, whatever their decimal scales.
pub proof fn law_raw_supply_of_one_is_never_refused(
    world: WorldView,
    ctx: CreateEntangler,
    price: Option<u64>,
    pays_every_time: bool,
)
    requires
        ctx.mint_a.supply == 1,
        ctx.mint_b.supply == 1,
    ensures
        create_outcome(world, ctx, create_facts(ctx), price, pays_every_time) != Err::<
            WorldView,
            EntanglerError,
        >(EntanglerError::MustHaveSupplyOne),
{
}

/// A creation that got as far as the supplies fails with `MustHaveSupplyOne`
/// where one of the two mints has neither a raw nor a decimal-normalized supply
/// of one.
pub proof fn law_other_supply_is_refused(
    world: WorldView,
    ctx: CreateEntangler,
    facts: CreateFacts,
    price: Option<u64>,
    pays_every_time: bool,
)
    requires
        !(facts.reverse is Some && world.pairs.contains_key(address_of(facts.reverse))),
        facts.pair is Some && !world.pairs.contains_key(address_of(facts.pair)),
        facts.escrow_a is Some && facts.escrow_b is Some,
        ({
            ||| ctx.mint_a.supply != 1 && facts.supply_a != Some(UI_ONE)
            ||| ctx.mint_b.supply != 1 && facts.supply_b != Some(UI_ONE)
        }),
    ensures
        create_outcome(world, ctx, facts, price, pays_every_time) == Err::<
            WorldView,
            EntanglerError,
        >(EntanglerError::MustHaveSupplyOne),
{
}

/// After a creation whose two vaults were absent or empty before and live at
/// different addresses: the second asset's vault holds the whole supply of the
/// second asset, the first asset's vault is empty, the second asset is marked as
/// suspended, and the record stands at the pair's address.
pub proof fn law_created_pair_escrows_second_asset(
    world: WorldView,
    ctx: CreateEntangler,
    facts: CreateFacts,
    price: Option<u64>,
    pays_every_time: bool,
)
    requires
        create_outcome(world, ctx, facts, price, pays_every_time) is Ok,
        world.balance(address_of(facts.escrow_a)) == 0,
        world.balance(address_of(facts.escrow_b)) == 0,
        address_of(facts.escrow_a) != address_of(facts.escrow_b),
    ensures
        ({
            let after = create_outcome(world, ctx, facts, price, pays_every_time)->Ok_0;
            let vault_a = address_of(facts.escrow_a);
            let vault_b = address_of(facts.escrow_b);
            &&& after.accounts.contains_key(vault_b)
            &&& after.accounts[vault_b].mint == ctx.mint_b.key
            &&& after.accounts[vault_b].amount == ctx.mint_b.supply
            &&& after.accounts.contains_key(vault_a)
            &&& after.accounts[vault_a].amount == 0
            &&& after.is_suspended(ctx.mint_b.key)
            &&& after.pairs.contains_key(address_of(facts.pair))
            &&& after.pairs[address_of(facts.pair)] == created_record(
                ctx,
                facts,
                price,
                pays_every_time,
            )
        }),
{
}

/// A swap of an asset that is neither of the pair's two fails with
/// `InvalidMint`, where the pair exists in the request's currency and the holder
/// holds the whole supply of what is handed in.
pub proof fn law_foreign_asset_is_refused(world: WorldView, ctx: SwapxNFT, facts: SwapFacts)
    requires
        world.pairs.contains_key(ctx.xnft_entangler),
        world.pairs[ctx.xnft_entangler].treasury_mint == ctx.treasury_mint,
        world.accounts.contains_key(ctx.token),
        world.accounts[ctx.token].mint == ctx.xnft_mint.key,
        world.accounts[ctx.token].amount == ctx.xnft_mint.supply,
        ctx.xnft_mint.key != world.pairs[ctx.xnft_entangler].master_mint_a,
        ctx.xnft_mint.key != world.pairs[ctx.xnft_entangler].master_mint_b,
    ensures
        swap_outcome(world, ctx, facts) == Err::<WorldView, EntanglerError>(
            EntanglerError::InvalidMint,
        ),
{
}

/// A swap that asks for anything but the other asset of the pair fails with
/// `InvalidMint`, where the pair exists in the request's currency and the holder
/// holds the whole supply of one of the pair's assets.
pub proof fn law_wrong_replacement_is_refused(world: WorldView, ctx: SwapxNFT, facts: SwapFacts)
    requires
        world.pairs.contains_key(ctx.xnft_entangler),
        world.pairs[ctx.xnft_entangler].treasury_mint == ctx.treasury_mint,
        world.accounts.contains_key(ctx.token),
        world.accounts[ctx.token].mint == ctx.xnft_mint.key,
        world.accounts[ctx.token].amount == ctx.xnft_mint.supply,
        ctx.replacement_xnft_mint.key != counterpart(
            world.pairs[ctx.xnft_entangler],
            ctx.xnft_mint.key,
        ),
    ensures
        swap_outcome(world, ctx, facts) == Err::<WorldView, EntanglerError>(
            EntanglerError::InvalidMint,
        ),
{
}

/// A swap by a holder whose account does not hold the whole supply of the asset
/// handed in fails with `InvalidTokenAmount`, where the pair exists in the
/// request's currency.
pub proof fn law_partial_holding_is_refused(world: WorldView, ctx: SwapxNFT, facts: SwapFacts)
    requires
        world.pairs.contains_key(ctx.xnft_entangler),
        world.pairs[ctx.xnft_entangler].treasury_mint == ctx.treasury_mint,
        world.accounts.contains_key(ctx.token),
        world.accounts[ctx.token].amount != ctx.xnft_mint.supply,
    ensures
        swap_outcome(world, ctx, facts) == Err::<WorldView, EntanglerError>(
            EntanglerError::InvalidTokenAmount,
        ),
{
}

/// A pair with a price that is due once: the first swap pays the price and
/// marks the pair as paid, and nothing is due from then on.
pub proof fn law_price_is_due_once(pair: XNFTentangler)
    requires
        pair.price is Some,
        !pair.pays_every_time,
        !pair.paid,
    ensures
        payment_due(pair) == pair.price,
        swapped_record(pair).paid,
        payment_due(swapped_record(pair)) is None,
        payment_due(swapped_record(swapped_record(pair))) is None,
{
}

/// A pair with a price that is due every time: every swap pays the price,
/// whether or not it was paid before, and the next swap owes it again.
pub proof fn law_price_is_due_every_time(pair: XNFTentangler)
    requires
        pair.price is Some,
        pair.pays_every_time,
    ensures
        payment_due(pair) == pair.price,
        payment_due(swapped_record(pair)) == pair.price,
{
}

/// A successful swap writes `swapped_record` to the pair and nothing else to
/// the registry, leaves the suspension marks alone, and has made the payment
/// where one was due.
pub proof fn law_swap_settles_the_record(world: WorldView, ctx: SwapxNFT, facts: SwapFacts)
    requires
        swap_outcome(world, ctx, facts) is Ok,
    ensures
        ({
            let after = swap_outcome(world, ctx, facts)->Ok_0;
            let pair = world.pairs[ctx.xnft_entangler];
            &&& after.pairs == world.pairs.insert(ctx.xnft_entangler, swapped_record(pair))
            &&& after.suspended == world.suspended
            &&& payment_due(pair) is Some ==> paid_ledger(
                provisioned(world.accounts, ctx, facts),
                pair,
                ctx,
                facts,
            ) is Ok
        }),
{
}

/// An update by anyone but the pair's authority fails with `IncorrectOwner`.
pub proof fn law_update_needs_the_authority(world: WorldView, ctx: UpdateEntangler)
    requires
        world.pairs.contains_key(ctx.xnft_entangler),
        world.pairs[ctx.xnft_entangler].authority != ctx.authority,
    ensures
        update_refusal(world, ctx) == Some(EntanglerError::IncorrectOwner),
{
}

/// An update never touches whether the price was paid, nor the assets, the
/// vaults or the nonces of the pair.
pub proof fn law_update_keeps_the_rest(
    pair: XNFTentangler,
    ctx: UpdateEntangler,
    price: Option<u64>,
    pays_every_time: bool,
)
    ensures
        updated_record(pair, ctx, price, pays_every_time) == (XNFTentangler {
            authority: ctx.new_authority,
            price,
            pays_every_time,
            ..pair
        }),
        updated_record(pair, ctx, price, pays_every_time).paid == pair.paid,
{
}

/// A swap whose outgoing leg the ledger refuses fails with that refusal, though
/// the payment and the incoming leg went through.
pub proof fn law_failed_release_fails_the_swap(world: WorldView, ctx: SwapxNFT, facts: SwapFacts)
    requires
        swap_refusal(world, ctx) is None,
        associated_verdict(
            provisioned(world.accounts, ctx, facts),
            ctx.replacement_token,
            ctx.payer,
            ctx.replacement_xnft_mint.key,
            facts.replacement_token,
        ) is Ok,
        paid_ledger(
            provisioned(world.accounts, ctx, facts),
            world.pairs[ctx.xnft_entangler],
            ctx,
            facts,
        ) is Ok,
        transfer_outcome(
            paid_ledger(
                provisioned(world.accounts, ctx, facts),
                world.pairs[ctx.xnft_entangler],
                ctx,
                facts,
            )->Ok_0,
            ctx.token,
            deposit_vault(world.pairs[ctx.xnft_entangler], ctx.xnft_mint.key),
            ctx.transfer_authority,
            ctx.xnft_mint.supply,
        ) is Ok,
        transfer_refusal(
            transfer_outcome(
                paid_ledger(
                    provisioned(world.accounts, ctx, facts),
                    world.pairs[ctx.xnft_entangler],
                    ctx,
                    facts,
                )->Ok_0,
                ctx.token,
                deposit_vault(world.pairs[ctx.xnft_entangler], ctx.xnft_mint.key),
                ctx.transfer_authority,
                ctx.xnft_mint.supply,
            )->Ok_0,
            release_vault(world.pairs[ctx.xnft_entangler], ctx.xnft_mint.key),
            ctx.replacement_token,
            ctx.xnft_entangler,
            ctx.replacement_xnft_mint.supply,
        ) is Some,
    ensures
        swap_outcome(world, ctx, facts) is Err,
        swap_outcome(world, ctx, facts)->Err_0 == transfer_refusal(
            transfer_outcome(
                paid_ledger(
                    provisioned(world.accounts, ctx, facts),
                    world.pairs[ctx.xnft_entangler],
                    ctx,
                    facts,
                )->Ok_0,
                ctx.token,
                deposit_vault(world.pairs[ctx.xnft_entangler], ctx.xnft_mint.key),
                ctx.transfer_authority,
                ctx.xnft_mint.supply,
            )->Ok_0,
            release_vault(world.pairs[ctx.xnft_entangler], ctx.xnft_mint.key),
            ctx.replacement_token,
            ctx.xnft_entangler,
            ctx.replacement_xnft_mint.supply,
        )->0,
{
}

/// A successful exchange between four different accounts moves the whole
/// supply of the asset handed in from the holder's account into its vault, and
/// the whole supply of the other asset from the opposite vault into the holder's
/// receiving account.
pub proof fn law_exchange_moves_both_units(
    accounts: Map<Key, TokenAccount>,
    pair: XNFTentangler,
    ctx: SwapxNFT,
)
    requires
        exchanged(accounts, pair, ctx) is Ok,
        ctx.token != deposit_vault(pair, ctx.xnft_mint.key),
        ctx.token != release_vault(pair, ctx.xnft_mint.key),
        ctx.token != ctx.replacement_token,
        deposit_vault(pair, ctx.xnft_mint.key) != release_vault(pair, ctx.xnft_mint.key),
        deposit_vault(pair, ctx.xnft_mint.key) != ctx.replacement_token,
        release_vault(pair, ctx.xnft_mint.key) != ctx.replacement_token,
    ensures
        ({
            let after = exchanged(accounts, pair, ctx)->Ok_0;
            let deposit = deposit_vault(pair, ctx.xnft_mint.key);
            let release = release_vault(pair, ctx.xnft_mint.key);
            &&& after[ctx.token].amount == accounts[ctx.token].amount - ctx.xnft_mint.supply
            &&& after[deposit].amount == accounts[deposit].amount + ctx.xnft_mint.supply
            &&& after[release].amount == accounts[release].amount
                - ctx.replacement_xnft_mint.supply
            &&& after[ctx.replacement_token].amount == accounts[ctx.replacement_token].amount
                + ctx.replacement_xnft_mint.supply
            &&& after[ctx.token].mint == after[deposit].mint
            &&& after[release].mint == after[ctx.replacement_token].mint
            &&& accounts[release].owner == ctx.xnft_entangler
        }),
{
}

/// A transfer between two different accounts moves the amount and creates or
/// loses nothing: the two balances add up to what they added up to before, and
/// no other account changes.
pub proof fn law_transfer_conserves(
    accounts: Map<Key, TokenAccount>,
    from: Key,
    to: Key,
    authority: Key,
    amount: u64,
)
    requires
        transfer_refusal(accounts, from, to, authority, amount) is None,
        from != to,
    ensures
        ({
            let after = transferred(accounts, from, to, amount);
            &&& after[from].amount == accounts[from].amount - amount
            &&& after[to].amount == accounts[to].amount + amount
            &&& after.dom() == accounts.dom()
            &&& forall|other: Key|
                other != from && other != to && accounts.contains_key(other) ==> after[other]
                    == accounts[other]
        }),
{
    let after = transferred(accounts, from, to, amount);
    assert(after.dom() =~= accounts.dom());
}

} // verus!
