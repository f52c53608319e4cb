use xnft_entangler::address::find_associated_address;
use xnft_entangler::error::EntanglerError;
use xnft_entangler::key::Key;
use xnft_entangler::ledger::{Ledger, MintAccount, TokenAccount};
use xnft_entangler::validation::{
    normalize_supply, scale_fits, verify_associated_account, verify_associated_account_at,
    verify_metadata, verify_supply_one, verify_supply_one_given, MetadataAccount, UI_ONE,
};

fn key(n: u8) -> Key {
    Key::new([n; 32])
}

fn mint(supply: u64, decimals: u8) -> MintAccount {
    MintAccount { key: key(1), supply, decimals }
}

fn record(mint: u8, data_len: u64) -> MetadataAccount {
    MetadataAccount { mint_ref: key(mint), data_len }
}

#[test]
fn ui_one_is_the_number_one() {
    assert_eq!(UI_ONE, 1.0f64.to_bits());
}

#[test]
fn normalized_supply_divides_by_the_scale() {
    assert_eq!(normalize_supply(1, 0), Some(1.0f64.to_bits()));
    assert_eq!(normalize_supply(1_000_000, 6), Some(1.0f64.to_bits()));
    assert_eq!(normalize_supply(1, 2), Some(0.01f64.to_bits()));
    assert_eq!(normalize_supply(2, 0), Some(2.0f64.to_bits()));
    assert_eq!(normalize_supply(5, 1), Some(0.5f64.to_bits()));
    assert_eq!(normalize_supply(0, 3), Some(0.0f64.to_bits()));
}

#[test]
fn normalized_supply_is_not_its_argument() {
    assert_ne!(normalize_supply(1_000_000, 6), Some(1_000_000));
    assert_ne!(normalize_supply(7, 0), Some(7));
}

#[test]
fn scale_fits_up_to_the_machine_word() {
    assert!(scale_fits(0));
    assert!(scale_fits(9));
    assert_eq!(scale_fits(19), usize::MAX as u128 >= 10u128.pow(19));
    assert!(!scale_fits(20));
    assert!(!scale_fits(255));
    assert_eq!(normalize_supply(1, 20), None);
    assert_eq!(normalize_supply(1, 255), None);
}

#[test]
fn raw_supply_of_one_passes_at_any_scale() {
    for decimals in [0u8, 1, 6, 9, 19, 20, 255] {
        assert_eq!(verify_supply_one(&mint(1, decimals)), Ok(()));
    }
}

#[test]
fn normalized_supply_of_one_passes() {
    assert_eq!(verify_supply_one(&mint(1_000_000, 6)), Ok(()));
    assert_eq!(verify_supply_one(&mint(10, 1)), Ok(()));
    assert_eq!(verify_supply_one(&mint(1_000_000_000, 9)), Ok(()));
}

#[test]
fn other_supplies_fail() {
    assert_eq!(verify_supply_one(&mint(0, 0)), Err(EntanglerError::MustHaveSupplyOne));
    assert_eq!(verify_supply_one(&mint(2, 0)), Err(EntanglerError::MustHaveSupplyOne));
    assert_eq!(verify_supply_one(&mint(1_000_000, 5)), Err(EntanglerError::MustHaveSupplyOne));
    assert_eq!(verify_supply_one(&mint(999_999, 6)), Err(EntanglerError::MustHaveSupplyOne));
    assert_eq!(verify_supply_one(&mint(2, 20)), Err(EntanglerError::MustHaveSupplyOne));
}

#[test]
fn supply_check_on_given_bits() {
    assert_eq!(verify_supply_one_given(1, None), Ok(()));
    assert_eq!(verify_supply_one_given(1, Some(0)), Ok(()));
    assert_eq!(verify_supply_one_given(100, Some(UI_ONE)), Ok(()));
    assert_eq!(verify_supply_one_given(100, Some(UI_ONE + 1)), Err(EntanglerError::MustHaveSupplyOne));
    assert_eq!(verify_supply_one_given(100, None), Err(EntanglerError::MustHaveSupplyOne));
}

#[test]
fn metadata_must_exist() {
    assert_eq!(
        verify_metadata(&record(1, 0), None, &key(1)),
        Err(EntanglerError::MetadataDoesntExist)
    );
    assert_eq!(
        verify_metadata(&record(2, 0), Some(&record(1, 10)), &key(1)),
        Err(EntanglerError::MetadataDoesntExist)
    );
}

#[test]
fn metadata_must_belong_to_the_mint() {
    assert_eq!(
        verify_metadata(&record(2, 10), None, &key(1)),
        Err(EntanglerError::DerivedKeyInvalid)
    );
    assert_eq!(verify_metadata(&record(1, 10), None, &key(1)), Ok(()));
}

#[test]
fn attached_edition_must_exist_and_belong_to_the_mint() {
    assert_eq!(
        verify_metadata(&record(1, 10), Some(&record(1, 0)), &key(1)),
        Err(EntanglerError::EditionDoesntExist)
    );
    assert_eq!(
        verify_metadata(&record(1, 10), Some(&record(2, 0)), &key(1)),
        Err(EntanglerError::EditionDoesntExist)
    );
    assert_eq!(
        verify_metadata(&record(1, 10), Some(&record(2, 5)), &key(1)),
        Err(EntanglerError::DerivedKeyInvalid)
    );
    assert_eq!(verify_metadata(&record(1, 10), Some(&record(1, 5)), &key(1)), Ok(()));
}

#[test]
fn associated_account_is_accepted_at_its_canonical_address() {
    let (owner, mint) = (key(4), key(5));
    let (address, _) = find_associated_address(&owner, &mint).unwrap();
    let account = TokenAccount { owner, mint, amount: 1 };
    let mut ledger = Ledger::new();
    ledger.put_account(address, account);
    assert_eq!(verify_associated_account(&ledger, &address, &owner, &mint), Ok(account));
}

#[test]
fn associated_account_must_exist() {
    let (owner, mint) = (key(4), key(5));
    let (address, _) = find_associated_address(&owner, &mint).unwrap();
    let ledger = Ledger::new();
    assert_eq!(
        verify_associated_account(&ledger, &address, &owner, &mint),
        Err(EntanglerError::UninitializedAccount)
    );
}

#[test]
fn associated_account_must_name_owner_and_mint() {
    let (owner, mint) = (key(4), key(5));
    let (address, _) = find_associated_address(&owner, &mint).unwrap();
    let mut ledger = Ledger::new();
    ledger.put_account(address, TokenAccount { owner: key(6), mint, amount: 1 });
    assert_eq!(
        verify_associated_account(&ledger, &address, &owner, &mint),
        Err(EntanglerError::PublicKeyMismatch)
    );
    ledger.put_account(address, TokenAccount { owner, mint: key(6), amount: 1 });
    assert_eq!(
        verify_associated_account(&ledger, &address, &owner, &mint),
        Err(EntanglerError::PublicKeyMismatch)
    );
}

#[test]
fn associated_account_must_live_at_the_canonical_address() {
    let (owner, mint) = (key(4), key(5));
    let elsewhere = key(7);
    let mut ledger = Ledger::new();
    ledger.put_account(elsewhere, TokenAccount { owner, mint, amount: 1 });
    assert_eq!(
        verify_associated_account(&ledger, &elsewhere, &owner, &mint),
        Err(EntanglerError::PublicKeyMismatch)
    );
    assert_eq!(
        verify_associated_account_at(&ledger, &elsewhere, &owner, &mint, None),
        Err(EntanglerError::PublicKeyMismatch)
    );
    assert_eq!(
        verify_associated_account_at(&ledger, &elsewhere, &owner, &mint, Some((key(8), 255))),
        Err(EntanglerError::PublicKeyMismatch)
    );
    assert_eq!(
        verify_associated_account_at(&ledger, &elsewhere, &owner, &mint, Some((elsewhere, 3))),
        Ok(TokenAccount { owner, mint, amount: 1 })
    );
}

#[test]
fn error_messages() {
    let expected = [
        (EntanglerError::PublicKeyMismatch, "PublicKeyMismatch"),
        (EntanglerError::InvalidMintAuthority, "InvalidMintAuthority"),
        (EntanglerError::UninitializedAccount, "UninitializedAccount"),
        (EntanglerError::IncorrectOwner, "IncorrectOwner"),
        (EntanglerError::PublicKeysShouldBeUnique, "PublicKeysShouldBeUnique"),
        (EntanglerError::StatementFalse, "StatementFalse"),
        (EntanglerError::NotRentExempt, "NotRentExempt"),
        (EntanglerError::NumericalOverflow, "NumericalOverflow"),
        (EntanglerError::DerivedKeyInvalid, "Derived key invalid"),
        (EntanglerError::MetadataDoesntExist, "Metadata doesn't exist"),
        (EntanglerError::EditionDoesntExist, "Edition doesn't exist"),
        (EntanglerError::InvalidTokenAmount, "Invalid token amount"),
        (EntanglerError::InvalidMint, "This token is not a valid mint for this entangled pair"),
        (EntanglerError::EntangledPairExists, "This pair already exists as it's reverse"),
        (EntanglerError::MustHaveSupplyOne, "Must have supply one!"),
        (EntanglerError::BumpSeedNotInHashMap, "Bump seed not in hash map"),
    ];
    for (error, message) in expected {
        assert_eq!(error.message(), message);
    }
}
