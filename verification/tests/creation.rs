use xnft_entangler::address::{find_associated_address, find_escrow_address, find_pair_address, Side};
use xnft_entangler::creation::{create_entangler_at, resolve_create, CreateFacts};
use xnft_entangler::key::Key;
use xnft_entangler::ledger::{MintAccount, TokenAccount};
use xnft_entangler::state::World;
use xnft_entangler::validation::{MetadataAccount, UI_ONE};
use xnft_entangler::{create_entangler, CreateEntangler, EntanglerError, XNFTentangler};

fn key(n: u8) -> Key {
    Key::new([n; 32])
}

const A: u8 = 1;
const B: u8 = 2;
const TREASURY: u8 = 3;
const PAYER: u8 = 10;
const AUTHORITY: u8 = 11;

fn mint(n: u8, supply: u64, decimals: u8) -> MintAccount {
    MintAccount { key: key(n), supply, decimals }
}

fn associated(owner: u8, mint: u8) -> Key {
    find_associated_address(&key(owner), &key(mint)).unwrap().0
}

fn request(mint_a: MintAccount, mint_b: MintAccount) -> CreateEntangler {
    CreateEntangler {
        treasury_mint: key(TREASURY),
        mint_a,
        metadata_a: MetadataAccount { mint_ref: mint_a.key, data_len: 64 },
        master_edition_a: MetadataAccount { mint_ref: mint_a.key, data_len: 0 },
        mint_b,
        token_b: find_associated_address(&key(PAYER), &mint_b.key).unwrap().0,
        metadata_b: MetadataAccount { mint_ref: mint_b.key, data_len: 64 },
        master_edition_b: MetadataAccount { mint_ref: mint_b.key, data_len: 0 },
        payer: key(PAYER),
        transfer_authority: key(PAYER),
        authority: key(AUTHORITY),
    }
}

fn plain_request() -> CreateEntangler {
    request(mint(A, 1, 0), mint(B, 1, 0))
}

fn world_for(ctx: &CreateEntangler) -> World {
    let mut world = World::new();
    world.put_account(
        ctx.token_b,
        TokenAccount { owner: ctx.payer, mint: ctx.mint_b.key, amount: ctx.mint_b.supply },
    );
    world
}

fn assert_untouched(world: &World, ctx: &CreateEntangler) {
    let (pair, _) = find_pair_address(&ctx.mint_a.key, &ctx.mint_b.key).unwrap();
    let (vault_a, _) = find_escrow_address(&ctx.mint_a.key, &ctx.mint_b.key, Side::A).unwrap();
    let (vault_b, _) = find_escrow_address(&ctx.mint_a.key, &ctx.mint_b.key, Side::B).unwrap();
    assert_eq!(world.pair(&pair), None);
    assert_eq!(world.account(&vault_a), None);
    assert_eq!(world.account(&vault_b), None);
    assert!(!world.is_suspended(&ctx.mint_b.key));
}

#[test]
fn creation_writes_the_record() {
    let ctx = plain_request();
    let mut world = world_for(&ctx);
    let record = create_entangler(&mut world, &ctx, Some(100), false).unwrap();
    let (pair, bump) = find_pair_address(&key(A), &key(B)).unwrap();
    let (vault_a, bump_a) = find_escrow_address(&key(A), &key(B), Side::A).unwrap();
    let (vault_b, bump_b) = find_escrow_address(&key(A), &key(B), Side::B).unwrap();
    assert_eq!(
        record,
        XNFTentangler {
            treasury_mint: key(TREASURY),
            master_mint_a: key(A),
            master_mint_b: key(B),
            xnft_a_escrow: vault_a,
            xnft_b_escrow: vault_b,
            authority: key(AUTHORITY),
            bump,
            escrow_a_bump: bump_a,
            escrow_b_bump: bump_b,
            price: Some(100),
            paid: false,
            pays_every_time: false,
        }
    );
    assert_eq!(world.pair(&pair), Some(record));
}

#[test]
fn creation_escrows_the_second_asset() {
    let ctx = plain_request();
    let mut world = world_for(&ctx);
    let record = create_entangler(&mut world, &ctx, None, true).unwrap();
    let (pair, _) = find_pair_address(&key(A), &key(B)).unwrap();
    assert_eq!(
        world.account(&record.xnft_b_escrow),
        Some(TokenAccount { owner: pair, mint: key(B), amount: 1 })
    );
    assert_eq!(
        world.account(&record.xnft_a_escrow),
        Some(TokenAccount { owner: pair, mint: key(A), amount: 0 })
    );
    assert_eq!(
        world.account(&ctx.token_b),
        Some(TokenAccount { owner: key(PAYER), mint: key(B), amount: 0 })
    );
    assert!(world.is_suspended(&key(B)));
    assert!(!world.is_suspended(&key(A)));
    assert_eq!(record.price, None);
    assert!(record.pays_every_time);
    assert!(!record.paid);
}

#[test]
fn reverse_pair_is_refused() {
    let ctx = plain_request();
    let mut world = world_for(&ctx);
    create_entangler(&mut world, &ctx, None, false).unwrap();
    let reversed = request(mint(B, 1, 0), mint(A, 1, 0));
    world.put_account(
        reversed.token_b,
        TokenAccount { owner: key(PAYER), mint: key(A), amount: 1 },
    );
    assert_eq!(
        create_entangler(&mut world, &reversed, None, false),
        Err(EntanglerError::EntangledPairExists)
    );
    let (reverse_pair, _) = find_pair_address(&key(B), &key(A)).unwrap();
    assert_eq!(world.pair(&reverse_pair), None);
    assert_eq!(
        world.account(&reversed.token_b),
        Some(TokenAccount { owner: key(PAYER), mint: key(A), amount: 1 })
    );
    assert!(!world.is_suspended(&key(A)));
}

#[test]
fn same_pair_is_refused_twice() {
    let ctx = plain_request();
    let mut world = world_for(&ctx);
    let record = create_entangler(&mut world, &ctx, Some(5), false).unwrap();
    world.put_account(ctx.token_b, TokenAccount { owner: key(PAYER), mint: key(B), amount: 1 });
    assert_eq!(
        create_entangler(&mut world, &ctx, Some(6), true),
        Err(EntanglerError::EntangledPairExists)
    );
    let (pair, _) = find_pair_address(&key(A), &key(B)).unwrap();
    assert_eq!(world.pair(&pair), Some(record));
    assert_eq!(world.account(&record.xnft_b_escrow).unwrap().amount, 1);
}

#[test]
fn unrelated_pairs_coexist() {
    let first = plain_request();
    let second = request(mint(A, 1, 0), mint(5, 1, 0));
    let mut world = world_for(&first);
    world.put_account(second.token_b, TokenAccount { owner: key(PAYER), mint: key(5), amount: 1 });
    let one = create_entangler(&mut world, &first, None, false).unwrap();
    let two = create_entangler(&mut world, &second, None, false).unwrap();
    assert_ne!(one.xnft_b_escrow, two.xnft_b_escrow);
    assert_eq!(world.account(&one.xnft_b_escrow).unwrap().amount, 1);
    assert_eq!(world.account(&two.xnft_b_escrow).unwrap().amount, 1);
}

#[test]
fn supply_must_be_one() {
    for (a, b) in [
        (mint(A, 2, 0), mint(B, 1, 0)),
        (mint(A, 1, 0), mint(B, 2, 0)),
        (mint(A, 0, 0), mint(B, 1, 0)),
        (mint(A, 1, 0), mint(B, 1_000, 6)),
    ] {
        let ctx = request(a, b);
        let mut world = world_for(&ctx);
        assert_eq!(
            create_entangler(&mut world, &ctx, None, false),
            Err(EntanglerError::MustHaveSupplyOne)
        );
        assert_untouched(&world, &ctx);
        assert_eq!(world.account(&ctx.token_b).unwrap().amount, b.supply);
    }
}

#[test]
fn raw_supply_of_one_succeeds_at_any_scale() {
    for decimals in [0u8, 2, 9, 19, 20, 200] {
        let ctx = request(mint(A, 1, decimals), mint(B, 1, decimals));
        let mut world = world_for(&ctx);
        let record = create_entangler(&mut world, &ctx, None, false).unwrap();
        assert_eq!(world.account(&record.xnft_b_escrow).unwrap().amount, 1);
    }
}

#[test]
fn scaled_supply_of_one_unit_succeeds() {
    let ctx = request(mint(A, 100, 2), mint(B, 1_000_000, 6));
    let mut world = world_for(&ctx);
    let record = create_entangler(&mut world, &ctx, None, false).unwrap();
    assert_eq!(world.account(&record.xnft_b_escrow).unwrap().amount, 1_000_000);
    assert_eq!(world.account(&ctx.token_b).unwrap().amount, 0);
}

#[test]
fn metadata_is_checked() {
    let mut ctx = plain_request();
    ctx.metadata_a.data_len = 0;
    let mut world = world_for(&ctx);
    assert_eq!(
        create_entangler(&mut world, &ctx, None, false),
        Err(EntanglerError::MetadataDoesntExist)
    );
    let mut ctx = plain_request();
    ctx.metadata_b.mint_ref = key(A);
    assert_eq!(
        create_entangler(&mut world, &ctx, None, false),
        Err(EntanglerError::DerivedKeyInvalid)
    );
    let mut ctx = plain_request();
    ctx.master_edition_b = MetadataAccount { mint_ref: key(A), data_len: 8 };
    assert_eq!(
        create_entangler(&mut world, &ctx, None, false),
        Err(EntanglerError::DerivedKeyInvalid)
    );
    assert_untouched(&world, &ctx);
    let mut ctx = plain_request();
    ctx.master_edition_a = MetadataAccount { mint_ref: key(A), data_len: 8 };
    ctx.master_edition_b = MetadataAccount { mint_ref: key(A), data_len: 0 };
    assert!(create_entangler(&mut world, &ctx, None, false).is_ok());
}

#[test]
fn initiator_account_must_be_canonical() {
    let mut ctx = plain_request();
    ctx.token_b = key(40);
    let mut world = World::new();
    assert_eq!(
        create_entangler(&mut world, &ctx, None, false),
        Err(EntanglerError::UninitializedAccount)
    );
    world.put_account(key(40), TokenAccount { owner: key(PAYER), mint: key(B), amount: 1 });
    assert_eq!(
        create_entangler(&mut world, &ctx, None, false),
        Err(EntanglerError::PublicKeyMismatch)
    );
    assert_untouched(&world, &ctx);
    assert_eq!(world.account(&key(40)).unwrap().amount, 1);
    let ctx = plain_request();
    world.put_account(ctx.token_b, TokenAccount { owner: key(AUTHORITY), mint: key(B), amount: 1 });
    assert_eq!(
        create_entangler(&mut world, &ctx, None, false),
        Err(EntanglerError::PublicKeyMismatch)
    );
    assert_eq!(associated(PAYER, B), ctx.token_b);
}

#[test]
fn failed_deposit_leaves_nothing_behind() {
    let ctx = plain_request();
    let mut world = World::new();
    world.put_account(ctx.token_b, TokenAccount { owner: key(PAYER), mint: key(B), amount: 0 });
    assert_eq!(
        create_entangler(&mut world, &ctx, None, false),
        Err(EntanglerError::InvalidTokenAmount)
    );
    assert_untouched(&world, &ctx);
    let mut ctx = plain_request();
    ctx.transfer_authority = key(AUTHORITY);
    let mut world = world_for(&ctx);
    assert_eq!(
        create_entangler(&mut world, &ctx, None, false),
        Err(EntanglerError::IncorrectOwner)
    );
    assert_untouched(&world, &ctx);
    assert_eq!(world.account(&ctx.token_b).unwrap().amount, 1);
}

#[test]
fn existing_vault_of_another_asset_refuses_the_deposit() {
    let ctx = plain_request();
    let mut world = world_for(&ctx);
    let (vault_b, _) = find_escrow_address(&key(A), &key(B), Side::B).unwrap();
    world.put_account(vault_b, TokenAccount { owner: key(PAYER), mint: key(A), amount: 0 });
    assert_eq!(create_entangler(&mut world, &ctx, None, false), Err(EntanglerError::InvalidMint));
    let (pair, _) = find_pair_address(&key(A), &key(B)).unwrap();
    assert_eq!(world.pair(&pair), None);
    assert_eq!(world.account(&ctx.token_b).unwrap().amount, 1);
}

#[test]
fn facts_are_what_the_derivations_give() {
    let ctx = request(mint(A, 1, 0), mint(B, 1_000_000, 6));
    assert_eq!(
        resolve_create(&ctx),
        CreateFacts {
            pair: find_pair_address(&key(A), &key(B)),
            reverse: find_pair_address(&key(B), &key(A)),
            escrow_a: find_escrow_address(&key(A), &key(B), Side::A),
            escrow_b: find_escrow_address(&key(A), &key(B), Side::B),
            token_b: find_associated_address(&key(PAYER), &key(B)),
            supply_a: Some(UI_ONE),
            supply_b: Some(UI_ONE),
        }
    );
}

#[test]
fn creation_on_given_facts() {
    let mut ctx = plain_request();
    ctx.token_b = key(50);
    let facts = CreateFacts {
        pair: Some((key(60), 7)),
        reverse: Some((key(61), 8)),
        escrow_a: Some((key(62), 9)),
        escrow_b: Some((key(63), 10)),
        token_b: Some((key(50), 11)),
        supply_a: None,
        supply_b: None,
    };
    let mut world = World::new();
    world.put_account(key(50), TokenAccount { owner: key(PAYER), mint: key(B), amount: 1 });
    let record = create_entangler_at(&mut world, &ctx, &facts, Some(3), true).unwrap();
    assert_eq!(record.bump, 7);
    assert_eq!(record.escrow_a_bump, 9);
    assert_eq!(record.escrow_b_bump, 10);
    assert_eq!(record.xnft_a_escrow, key(62));
    assert_eq!(record.xnft_b_escrow, key(63));
    assert_eq!(world.pair(&key(60)), Some(record));
    assert_eq!(
        world.account(&key(63)),
        Some(TokenAccount { owner: key(60), mint: key(B), amount: 1 })
    );
    assert_eq!(
        world.account(&key(62)),
        Some(TokenAccount { owner: key(60), mint: key(A), amount: 0 })
    );
    assert!(world.is_suspended(&key(B)));
}

#[test]
fn creation_without_a_derived_address_is_refused() {
    let mut ctx = plain_request();
    ctx.token_b = key(50);
    let full = CreateFacts {
        pair: Some((key(60), 7)),
        reverse: None,
        escrow_a: Some((key(62), 9)),
        escrow_b: Some((key(63), 10)),
        token_b: Some((key(50), 11)),
        supply_a: None,
        supply_b: None,
    };
    let mut world = World::new();
    world.put_account(key(50), TokenAccount { owner: key(PAYER), mint: key(B), amount: 1 });
    for facts in [
        CreateFacts { pair: None, ..full },
        CreateFacts { escrow_a: None, ..full },
        CreateFacts { escrow_b: None, ..full },
    ] {
        assert_eq!(
            create_entangler_at(&mut world, &ctx, &facts, None, false),
            Err(EntanglerError::BumpSeedNotInHashMap)
        );
        assert_eq!(world.pair(&key(60)), None);
    }
    assert!(create_entangler_at(&mut world, &ctx, &full, None, false).is_ok());
}
