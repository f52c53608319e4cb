use xnft_entangler::address::{find_associated_address, find_pair_address};
use xnft_entangler::key::Key;
use xnft_entangler::ledger::{MintAccount, TokenAccount};
use xnft_entangler::state::World;
use xnft_entangler::validation::MetadataAccount;
use xnft_entangler::{
    create_entangler, update_entangler, CreateEntangler, EntanglerError, UpdateEntangler,
    XNFTentangler,
};

fn key(n: u8) -> Key {
    Key::new([n; 32])
}

fn entangled() -> (World, Key, XNFTentangler) {
    let (a, b, payer) = (key(1), key(2), key(10));
    let token_b = find_associated_address(&payer, &b).unwrap().0;
    let ctx = CreateEntangler {
        treasury_mint: key(3),
        mint_a: MintAccount { key: a, supply: 1, decimals: 0 },
        metadata_a: MetadataAccount { mint_ref: a, data_len: 1 },
        master_edition_a: MetadataAccount { mint_ref: a, data_len: 0 },
        mint_b: MintAccount { key: b, supply: 1, decimals: 0 },
        token_b,
        metadata_b: MetadataAccount { mint_ref: b, data_len: 1 },
        master_edition_b: MetadataAccount { mint_ref: b, data_len: 0 },
        payer,
        transfer_authority: payer,
        authority: key(11),
    };
    let mut world = World::new();
    world.put_account(token_b, TokenAccount { owner: payer, mint: b, amount: 1 });
    let record = create_entangler(&mut world, &ctx, Some(100), false).unwrap();
    (world, find_pair_address(&a, &b).unwrap().0, record)
}

#[test]
fn authority_updates_the_pair() {
    let (mut world, pair, record) = entangled();
    let ctx = UpdateEntangler { authority: key(11), new_authority: key(12), xnft_entangler: pair };
    assert_eq!(update_entangler(&mut world, &ctx, Some(7), true), Ok(()));
    assert_eq!(
        world.pair(&pair),
        Some(XNFTentangler { authority: key(12), price: Some(7), pays_every_time: true, ..record })
    );
    assert_eq!(world.account(&record.xnft_b_escrow).unwrap().amount, 1);
    assert!(world.is_suspended(&key(2)));
}

#[test]
fn update_can_clear_the_price() {
    let (mut world, pair, record) = entangled();
    let ctx = UpdateEntangler { authority: key(11), new_authority: key(11), xnft_entangler: pair };
    assert_eq!(update_entangler(&mut world, &ctx, None, false), Ok(()));
    assert_eq!(world.pair(&pair), Some(XNFTentangler { price: None, ..record }));
}

#[test]
fn stranger_cannot_update() {
    let (mut world, pair, record) = entangled();
    let ctx = UpdateEntangler { authority: key(10), new_authority: key(10), xnft_entangler: pair };
    assert_eq!(
        update_entangler(&mut world, &ctx, Some(0), true),
        Err(EntanglerError::IncorrectOwner)
    );
    assert_eq!(world.pair(&pair), Some(record));
    assert_eq!(world.pair(&pair).unwrap().authority, key(11));
    assert_eq!(world.pair(&pair).unwrap().price, Some(100));
}

#[test]
fn former_authority_cannot_update() {
    let (mut world, pair, _) = entangled();
    let hand_over = UpdateEntangler { authority: key(11), new_authority: key(12), xnft_entangler: pair };
    assert_eq!(update_entangler(&mut world, &hand_over, Some(100), false), Ok(()));
    assert_eq!(
        update_entangler(&mut world, &hand_over, Some(1), false),
        Err(EntanglerError::IncorrectOwner)
    );
    let again = UpdateEntangler { authority: key(12), new_authority: key(11), xnft_entangler: pair };
    assert_eq!(update_entangler(&mut world, &again, Some(1), false), Ok(()));
    assert_eq!(world.pair(&pair).unwrap().price, Some(1));
}

#[test]
fn update_of_a_missing_pair_fails() {
    let (mut world, _, _) = entangled();
    let ctx = UpdateEntangler { authority: key(11), new_authority: key(12), xnft_entangler: key(77) };
    assert_eq!(
        update_entangler(&mut world, &ctx, None, false),
        Err(EntanglerError::UninitializedAccount)
    );
    assert_eq!(world.pair(&key(77)), None);
}

#[test]
fn suspension_mark_can_be_set_and_cleared() {
    let mut world = World::new();
    assert!(!world.is_suspended(&key(1)));
    world.set_suspended(key(1), true);
    assert!(world.is_suspended(&key(1)));
    assert!(!world.is_suspended(&key(2)));
    world.set_suspended(key(1), false);
    assert!(!world.is_suspended(&key(1)));
}
