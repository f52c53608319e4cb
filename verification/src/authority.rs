//! Updating a pair: its authority, its price and when the price is due.

use vstd::prelude::*;
use crate::error::EntanglerError;
use crate::key::Key;
use crate::state::{World, WorldView, XNFTentangler};

verus! {

/// The accounts of an update request.
#[derive(Clone, Copy, Debug, PartialEq, Eq)]
pub struct UpdateEntangler {
    /// The caller, who must be the pair's authority.
    pub authority: Key,
    /// Who is the authority from now on.
    pub new_authority: Key,
    /// The pair record.
    pub xnft_entangler: Key,
}

/// Why an update request is refused, if it is.
pub open spec fn update_refusal(world: WorldView, ctx: UpdateEntangler) -> Option<EntanglerError> {
    if !world.pairs.contains_key(ctx.xnft_entangler) {
        Some(EntanglerError::UninitializedAccount)
    } else if world.pairs[ctx.xnft_entangler].authority != ctx.authority {
        Some(EntanglerError::IncorrectOwner)
    } else {
        None
    }
}

/// The pair record after an update: authority, price and payment rule are
/// overwritten, everything else stays.
pub open spec fn updated_record(
    pair: XNFTentangler,
    ctx: UpdateEntangler,
    price: Option<u64>,
    pays_every_time: bool,
) -> XNFTentangler {
    XNFTentangler { authority: ctx.new_authority, price, pays_every_time, ..pair }
}

/// Overwrites authority, price and payment rule of the pair. Fails with
/// `UninitializedAccount` where the pair does not exist and with
/// `IncorrectOwner` unless the caller is the pair's authority; nothing has
/// changed then. Whether the price was paid, and the ledger, are never touched.
pub fn update_entangler(
    world: &mut World,
    ctx: &UpdateEntangler,
    price: Option<u64>,
    pays_every_time: bool,
) -> (updated: Result<(), EntanglerError>)
    ensures
        updated == (match update_refusal(old(world)@, *ctx) {
            Some(refusal) => Err(refusal),
            None => Ok(()),
        }),
        final(world)@ == (if updated is Ok {
            WorldView {
                pairs: old(world)@.pairs.insert(
                    ctx.xnft_entangler,
                    updated_record(
                        old(world)@.pairs[ctx.xnft_entangler],
                        *ctx,
                        price,
                        pays_every_time,
                    ),
                ),
                ..old(world)@
            }
        } else {
            old(world)@
        }),
{
    let pair = match world.pair(&ctx.xnft_entangler) {
        Some(pair) => pair,
        None => {
            return Err(EntanglerError::UninitializedAccount);
        },
    };
    if pair.authority != ctx.authority {
        return Err(EntanglerError::IncorrectOwner);
    }
    world.put_pair(
        ctx.xnft_entangler,
        XNFTentangler { authority: ctx.new_authority, price, pays_every_time, ..pair },
    );
    Ok(())
}

} // verus!
