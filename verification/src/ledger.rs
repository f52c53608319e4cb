//! The asset ledger the entangler runs against: holding accounts and the
//! transfer between them.

use vstd::prelude::*;
use crate::address::{associated_address, find_associated_address};
use crate::error::EntanglerError;
use crate::key::Key;
use crate::store::Store;

verus! {

/// A mint as the ledger describes it.
#[derive(Clone, Copy, Debug, PartialEq, Eq)]
pub struct MintAccount {
    /// The mint's address, which identifies the asset.
    pub key: Key,
    /// Raw circulating quantity.
    pub supply: u64,
    /// Decimal scale of the raw quantity.
    pub decimals: u8,
}

/// A holding account as the ledger describes it.
#[derive(Clone, Copy, Debug, PartialEq, Eq)]
pub struct TokenAccount {
    /// Who may move the balance.
    pub owner: Key,
    /// The asset held.
    pub mint: Key,
    /// Raw balance.
    pub amount: u64,
}

/// The accounts after `address` was opened for `owner` and `mint`: an account
/// that is there already stays as it is, a new one starts empty.
pub open spec fn opened(
    accounts: Map<Key, TokenAccount>,
    address: Key,
    owner: Key,
    mint: Key,
) -> Map<Key, TokenAccount> {
    if accounts.contains_key(address) {
        accounts
    } else {
        accounts.insert(address, TokenAccount { owner, mint, amount: 0 })
    }
}

/// Why the ledger refuses to move `amount` from `from` to `to` on the word of
/// `authority`, if it does.
pub open spec fn transfer_refusal(
    accounts: Map<Key, TokenAccount>,
    from: Key,
    to: Key,
    authority: Key,
    amount: u64,
) -> Option<EntanglerError> {
    if !accounts.contains_key(from) || !accounts.contains_key(to) {
        Some(EntanglerError::UninitializedAccount)
    } else if accounts[from].mint != accounts[to].mint {
        Some(EntanglerError::InvalidMint)
    } else if accounts[from].owner != authority {
        Some(EntanglerError::IncorrectOwner)
    } else if accounts[from].amount < amount {
        Some(EntanglerError::InvalidTokenAmount)
    } else if from != to && accounts[to].amount + amount > u64::MAX {
        Some(EntanglerError::NumericalOverflow)
    } else {
        None
    }
}

/// The accounts after `amount` has moved from `from` to `to`. A transfer of an
/// account to itself changes nothing.
pub open spec fn transferred(
    accounts: Map<Key, TokenAccount>,
    from: Key,
    to: Key,
    amount: u64,
) -> Map<Key, TokenAccount> {
    if from == to {
        accounts
    } else {
        accounts.insert(
            from,
            TokenAccount { amount: (accounts[from].amount - amount) as u64, ..accounts[from] },
        ).insert(to, TokenAccount { amount: (accounts[to].amount + amount) as u64, ..accounts[to] })
    }
}

/// What a transfer comes to: the new accounts, or the refusal.
pub open spec fn transfer_outcome(
    accounts: Map<Key, TokenAccount>,
    from: Key,
    to: Key,
    authority: Key,
    amount: u64,
) -> Result<Map<Key, TokenAccount>, EntanglerError> {
    match transfer_refusal(accounts, from, to, authority, amount) {
        Some(refusal) => Err(refusal),
        None => Ok(transferred(accounts, from, to, amount)),
    }
}

/// The holding accounts, each under its address.
pub struct Ledger {
    accounts: Store<TokenAccount>,
}

impl View for Ledger {
    type V = Map<Key, TokenAccount>;

    closed spec fn view(&self) -> Map<Key, TokenAccount> {
        self.accounts@
    }
}

impl Ledger {
    /// A ledger without accounts.
    pub fn new() -> (ledger: Self)
        ensures
            ledger@ == Map::<Key, TokenAccount>::empty(),
    {
        Ledger { accounts: Store::new() }
    }

    /// The account at `address`, if it exists.
    pub fn account(&self, address: &Key) -> (found: Option<TokenAccount>)
        ensures
            found == (if self@.contains_key(*address) {
                Some(self@[*address])
            } else {
                None
            }),
    {
        self.accounts.get(address)
    }

    /// Sets the account at `address`, whatever was there.
    pub fn put_account(&mut self, address: Key, account: TokenAccount)
        ensures
            final(self)@ == old(self)@.insert(address, account),
    {
        self.accounts.insert(address, account);
    }

    /// Opens an empty account of `owner` for `mint` at `address`, unless an
    /// account is there already.
    pub fn open_account(&mut self, address: Key, owner: Key, mint: Key)
        ensures
            final(self)@ == opened(old(self)@, address, owner, mint),
    {
        if !self.accounts.contains(&address) {
            self.accounts.insert(address, TokenAccount { owner, mint, amount: 0 });
        }
    }

    /// Finds the canonical holding account of `owner` for `mint` and opens it if
    /// it does not exist. Returns its address, or `None`, with the ledger
    /// unchanged, where no such address can be derived.
    pub fn get_or_create_associated_account(&mut self, owner: &Key, mint: &Key) -> (address: Option<Key>)
        ensures
            match associated_address(*owner, *mint) {
                Some((canonical, _)) => address == Some(canonical) && final(self)@ == opened(
                    old(self)@,
                    canonical,
                    *owner,
                    *mint,
                ),
                None => address is None && final(self)@ == old(self)@,
            },
    {
        match find_associated_address(owner, mint) {
            Some((canonical, _)) => {
                self.open_account(canonical, *owner, *mint);
                Some(canonical)
            },
            None => None,
        }
    }

    /// Moves `amount` from `from` to `to`. `authority` must own `from`, both
    /// accounts must hold the same asset, and `from` must hold the amount.
    pub fn transfer(&mut self, from: &Key, to: &Key, authority: &Key, amount: u64) -> (done: Result<
        (),
        EntanglerError,
    >)
        ensures
            done == (match transfer_refusal(old(self)@, *from, *to, *authority, amount) {
                Some(refusal) => Err(refusal),
                None => Ok(()),
            }),
            final(self)@ == (match transfer_outcome(old(self)@, *from, *to, *authority, amount) {
                Ok(accounts) => accounts,
                Err(_) => old(self)@,
            }),
    {
        let source = match self.accounts.get(from) {
            Some(account) => account,
            None => {
                return Err(EntanglerError::UninitializedAccount);
            },
        };
        let target = match self.accounts.get(to) {
            Some(account) => account,
            None => {
                return Err(EntanglerError::UninitializedAccount);
            },
        };
        if source.mint != target.mint {
            return Err(EntanglerError::InvalidMint);
        }
        if source.owner != *authority {
            return Err(EntanglerError::IncorrectOwner);
        }
        if source.amount < amount {
            return Err(EntanglerError::InvalidTokenAmount);
        }
        if *from == *to {
            return Ok(());
        }
        if target.amount > u64::MAX - amount {
            return Err(EntanglerError::NumericalOverflow);
        }
        self.accounts.insert(*from, TokenAccount { amount: source.amount - amount, ..source });
        self.accounts.insert(*to, TokenAccount { amount: target.amount + amount, ..target });
        Ok(())
    }

    /// A second ledger with the same accounts.
    pub fn duplicate(&self) -> (copy: Self)
        ensures
            copy@ == self@,
    {
        Ledger { accounts: self.accounts.duplicate() }
    }
}

} // verus!
