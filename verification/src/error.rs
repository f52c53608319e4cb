//! The failures an entangler operation can end in.

use vstd::prelude::*;

verus! {

/// Why an operation was refused. Every failure aborts the operation and leaves
/// the persisted records as they were.
#[derive(Clone, Copy, Debug, PartialEq, Eq, Structural)]
pub enum EntanglerError {
    /// A key is not the one it has to be.
    PublicKeyMismatch,
    /// The mint's authority is not the one required.
    InvalidMintAuthority,
    /// An account that has to exist does not.
    UninitializedAccount,
    /// The caller or signer does not own what it acts on.
    IncorrectOwner,
    /// Two keys that have to differ are the same.
    PublicKeysShouldBeUnique,
    /// A required condition does not hold.
    StatementFalse,
    /// An account is not funded for its size.
    NotRentExempt,
    /// A balance would leave its range.
    NumericalOverflow,
    /// A record does not belong to the mint it is checked against, or an address cannot be derived.
    DerivedKeyInvalid,
    /// The asset has no metadata record.
    MetadataDoesntExist,
    /// The attached edition record holds nothing.
    EditionDoesntExist,
    /// An account does not hold the amount required.
    InvalidTokenAmount,
    /// The asset is not the one the pair or the account calls for.
    InvalidMint,
    /// The two assets are entangled already, in this order or the reverse one.
    EntangledPairExists,
    /// A mint has a supply other than one unit.
    MustHaveSupplyOne,
    /// No nonce is known for an address of the pair.
    BumpSeedNotInHashMap,
}

impl EntanglerError {
    /// The message that belongs to the failure.
    pub open spec fn text(self) -> Seq<char> {
        match self {
            EntanglerError::PublicKeyMismatch => "PublicKeyMismatch"@,
            EntanglerError::InvalidMintAuthority => "InvalidMintAuthority"@,
            EntanglerError::UninitializedAccount => "UninitializedAccount"@,
            EntanglerError::IncorrectOwner => "IncorrectOwner"@,
            EntanglerError::PublicKeysShouldBeUnique => "PublicKeysShouldBeUnique"@,
            EntanglerError::StatementFalse => "StatementFalse"@,
            EntanglerError::NotRentExempt => "NotRentExempt"@,
            EntanglerError::NumericalOverflow => "NumericalOverflow"@,
            EntanglerError::DerivedKeyInvalid => "Derived key invalid"@,
            EntanglerError::MetadataDoesntExist => "Metadata doesn't exist"@,
            EntanglerError::EditionDoesntExist => "Edition doesn't exist"@,
            EntanglerError::InvalidTokenAmount => "Invalid token amount"@,
            EntanglerError::InvalidMint => "This token is not a valid mint for this entangled pair"@,
            EntanglerError::EntangledPairExists => "This pair already exists as it's reverse"@,
            EntanglerError::MustHaveSupplyOne => "Must have supply one!"@,
            EntanglerError::BumpSeedNotInHashMap => "Bump seed not in hash map"@,
        }
    }

    /// The message that belongs to the failure.
    pub fn message(&self) -> (message: &'static str)
        ensures
            message@ == self.text(),
    {
        match self {
            EntanglerError::PublicKeyMismatch => "PublicKeyMismatch",
            EntanglerError::InvalidMintAuthority => "InvalidMintAuthority",
            EntanglerError::UninitializedAccount => "UninitializedAccount",
            EntanglerError::IncorrectOwner => "IncorrectOwner",
            EntanglerError::PublicKeysShouldBeUnique => "PublicKeysShouldBeUnique",
            EntanglerError::StatementFalse => "StatementFalse",
            EntanglerError::NotRentExempt => "NotRentExempt",
            EntanglerError::NumericalOverflow => "NumericalOverflow",
            EntanglerError::DerivedKeyInvalid => "Derived key invalid",
            EntanglerError::MetadataDoesntExist => "Metadata doesn't exist",
            EntanglerError::EditionDoesntExist => "Edition doesn't exist",
            EntanglerError::InvalidTokenAmount => "Invalid token amount",
            EntanglerError::InvalidMint => "This token is not a valid mint for this entangled pair",
            EntanglerError::EntangledPairExists => "This pair already exists as it's reverse",
            EntanglerError::MustHaveSupplyOne => "Must have supply one!",
            EntanglerError::BumpSeedNotInHashMap => "Bump seed not in hash map",
        }
    }
}

} // verus!
