//! The persisted state: pair records, holding accounts and suspension marks.

use vstd::prelude::*;
use crate::key::Key;
use crate::ledger::{Ledger, TokenAccount};
use crate::store::Store;
use crate::vault::SigningProof;

verus! {

/// The record that entangles two assets.
#[derive(Clone, Copy, Debug, PartialEq, Eq)]
pub struct XNFTentangler {
    /// The currency in which a swap is paid for.
    pub treasury_mint: Key,
    /// The first asset of the pair.
    pub master_mint_a: Key,
    /// The second asset of the pair.
    pub master_mint_b: Key,
    /// The vault of the first asset.
    pub xnft_a_escrow: Key,
    /// The vault of the second asset.
    pub xnft_b_escrow: Key,
    /// Who may update the record, and who is paid.
    pub authority: Key,
    /// Nonce of the record's own address.
    pub bump: u8,
    /// Nonce of the first vault's address.
    pub escrow_a_bump: u8,
    /// Nonce of the second vault's address.
    pub escrow_b_bump: u8,
    /// What a swap costs, if anything.
    pub price: Option<u64>,
    /// Whether the price was paid once.
    pub paid: bool,
    /// Whether the price is due at every swap, not only the first.
    pub pays_every_time: bool,
}

/// The state as the contracts see it.
pub struct WorldView {
    /// The holding accounts of the ledger.
    pub accounts: Map<Key, TokenAccount>,
    /// The pair records, each under its address.
    pub pairs: Map<Key, XNFTentangler>,
    /// The suspension mark of each asset that has one.
    pub suspended: Map<Key, bool>,
}

impl WorldView {
    /// Whether `asset` is marked as suspended.
    pub open spec fn is_suspended(self, asset: Key) -> bool {
        self.suspended.contains_key(asset) && self.suspended[asset]
    }

    /// The balance at `address`; zero where no account exists.
    pub open spec fn balance(self, address: Key) -> int {
        if self.accounts.contains_key(address) {
            self.accounts[address].amount as int
        } else {
            0
        }
    }
}

/// Everything an operation reads and writes.
pub struct World {
    ledger: Ledger,
    pairs: Store<XNFTentangler>,
    suspended: Store<bool>,
}

impl View for World {
    type V = WorldView;

    closed spec fn view(&self) -> WorldView {
        WorldView { accounts: self.ledger@, pairs: self.pairs@, suspended: self.suspended@ }
    }
}

impl World {
    /// A world without accounts, pairs or marks.
    pub fn new() -> (world: Self)
        ensures
            world@.accounts == Map::<Key, TokenAccount>::empty(),
            world@.pairs == Map::<Key, XNFTentangler>::empty(),
            world@.suspended == Map::<Key, bool>::empty(),
    {
        World { ledger: Ledger::new(), pairs: Store::new(), suspended: Store::new() }
    }

    /// The ledger of holding accounts.
    pub fn ledger(&self) -> (ledger: &Ledger)
        ensures
            ledger@ == self@.accounts,
    {
        &self.ledger
    }

    /// The holding account at `address`, if it exists.
    pub fn account(&self, address: &Key) -> (found: Option<TokenAccount>)
        ensures
            found == (if self@.accounts.contains_key(*address) {
                Some(self@.accounts[*address])
            } else {
                None
            }),
    {
        self.ledger.account(address)
    }

    /// The pair record at `address`, if it exists.
    pub fn pair(&self, address: &Key) -> (found: Option<XNFTentangler>)
        ensures
            found == (if self@.pairs.contains_key(*address) {
                Some(self@.pairs[*address])
            } else {
                None
            }),
    {
        self.pairs.get(address)
    }

    /// Issues the signing proof of the pair at `pair_key`, if that pair is
    /// registered.
    pub fn signing_proof(&self, pair_key: &Key) -> (issued: Option<SigningProof>)
        ensures
            issued is Some == self@.pairs.contains_key(*pair_key),
            issued matches Some(signing) ==> signing.signer() == *pair_key,
    {
        if self.pairs.contains(pair_key) {
            Some(SigningProof::issue(*pair_key))
        } else {
            None
        }
    }

    /// Whether `asset` is marked as suspended.
    pub fn is_suspended(&self, asset: &Key) -> (marked: bool)
        ensures
            marked == self@.is_suspended(*asset),
    {
        match self.suspended.get(asset) {
            Some(mark) => mark,
            None => false,
        }
    }

    /// Marks `asset` as suspended, or as no longer suspended.
    pub fn set_suspended(&mut self, asset: Key, flag: bool)
        ensures
            final(self)@ == (WorldView {
                suspended: old(self)@.suspended.insert(asset, flag),
                ..old(self)@
            }),
    {
        self.suspended.insert(asset, flag);
    }

    /// Sets the holding account at `address`, whatever was there.
    pub fn put_account(&mut self, address: Key, account: TokenAccount)
        ensures
            final(self)@ == (WorldView {
                accounts: old(self)@.accounts.insert(address, account),
                ..old(self)@
            }),
    {
        self.ledger.put_account(address, account);
    }

    /// Replaces the ledger and writes one pair record, in one step.
    pub(crate) fn settle(&mut self, ledger: Ledger, pair_key: Key, record: XNFTentangler)
        ensures
            final(self)@ == (WorldView {
                accounts: ledger@,
                pairs: old(self)@.pairs.insert(pair_key, record),
                ..old(self)@
            }),
    {
        self.ledger = ledger;
        self.pairs.insert(pair_key, record);
    }

    /// Sets the pair record at `pair_key`, whatever was there.
    pub fn put_pair(&mut self, pair_key: Key, record: XNFTentangler)
        ensures
            final(self)@ == (WorldView {
                pairs: old(self)@.pairs.insert(pair_key, record),
                ..old(self)@
            }),
    {
        self.pairs.insert(pair_key, record);
    }
}

} // verus!
