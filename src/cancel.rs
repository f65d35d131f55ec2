use vstd::prelude::*;

use crate::address::Address;
use crate::escrow::{derive_escrow, program_address};
use crate::state::{escrow_bound, held, held_opt, Offer, QuidError, TokenAccount};

verus! {

/// The accounts that cancelling an offer references.
#[derive(Debug, Clone, Copy, PartialEq, Eq)]
pub struct Cancel {
    /// The protocol's own program identity, under which the escrow is derived.
    pub program_id: Address,
    /// The address of the offer record.
    pub offer_address: Address,
    /// The offer record, if it still exists.
    pub offer: Option<Offer>,
    /// The caller, who signed the operation.
    pub offer_maker: Address,
    /// The maker's balance of the offered kind: the escrowed tokens go back here.
    pub offer_makers_maker_tokens: TokenAccount,
    /// The escrow holding, if it still exists.
    pub escrowed_maker_tokens: Option<TokenAccount>,
}

/// The first reason, if any, for which cancelling the offer is rejected, given
/// the identity and bump derived from the offer record's address.
pub open spec fn cancel_error(c: Cancel, derived: (Seq<u8>, u8)) -> Option<QuidError> {
    if c.offer is None || c.escrowed_maker_tokens is None {
        Some(QuidError::RecordNotFoundError)
    } else {
        let offer = c.offer.unwrap();
        let escrow = c.escrowed_maker_tokens.unwrap();
        if offer.maker@ != c.offer_maker@ {
            Some(QuidError::AuthorizationError)
        } else if !escrow_bound(escrow, derived.0) || derived.1 != offer.escrowed_maker_tokens_bump {
            Some(QuidError::EscrowMismatchError)
        } else if c.offer_makers_maker_tokens.mint@ != escrow.mint@ {
            Some(QuidError::AssetMismatchError)
        } else if c.offer_makers_maker_tokens.owner@ != c.offer_maker@ {
            Some(QuidError::AuthorizationError)
        } else if c.offer_makers_maker_tokens.address@ == escrow.address@ {
            Some(QuidError::DuplicateAccountError)
        } else if c.offer_makers_maker_tokens.amount + escrow.amount > u64::MAX {
            Some(QuidError::BalanceOverflowError)
        } else {
            None
        }
    }
}

/// The accounts after a successful cancellation: the whole escrowed balance
/// returns to the maker, and record and holding are gone.
pub open spec fn cancelled(c: Cancel) -> Cancel {
    let escrow = c.escrowed_maker_tokens.unwrap();
    Cancel {
        offer: None,
        escrowed_maker_tokens: None,
        offer_makers_maker_tokens: TokenAccount {
            amount: (c.offer_makers_maker_tokens.amount + escrow.amount) as u64,
            ..c.offer_makers_maker_tokens
        },
        ..c
    }
}

/// The units of kind `mint` over every balance that cancelling an offer references.
pub open spec fn cancel_supply(c: Cancel, mint: Seq<u8>) -> int {
    held(c.offer_makers_maker_tokens, mint) + held_opt(c.escrowed_maker_tokens, mint)
}

/// Cancels an offer, given the identity and bump derived from the offer
/// record's address: all of it, or nothing.
pub fn cancel_with_escrow(ctx: &mut Cancel, derived: (Address, u8)) -> (r: Result<(), QuidError>)
    ensures
        match cancel_error(*old(ctx), (derived.0@, derived.1)) {
            Some(e) => r == Err::<(), QuidError>(e) && *final(ctx) == *old(ctx),
            None => r is Ok && *final(ctx) == cancelled(*old(ctx)),
        },
        forall|m: Seq<u8>| cancel_supply(*final(ctx), m) == cancel_supply(*old(ctx), m),
{
    let offer = match ctx.offer {
        Some(o) => o,
        None => return Err(QuidError::RecordNotFoundError),
    };
    let escrow = match ctx.escrowed_maker_tokens {
        Some(e) => e,
        None => return Err(QuidError::RecordNotFoundError),
    };
    if !offer.maker.same(&ctx.offer_maker) {
        return Err(QuidError::AuthorizationError);
    }
    if !escrow.address.same(&derived.0) || !escrow.owner.same(&derived.0)
        || derived.1 != offer.escrowed_maker_tokens_bump {
        return Err(QuidError::EscrowMismatchError);
    }
    if !ctx.offer_makers_maker_tokens.mint.same(&escrow.mint) {
        return Err(QuidError::AssetMismatchError);
    }
    if !ctx.offer_makers_maker_tokens.owner.same(&ctx.offer_maker) {
        return Err(QuidError::AuthorizationError);
    }
    if ctx.offer_makers_maker_tokens.address.same(&escrow.address) {
        return Err(QuidError::DuplicateAccountError);
    }
    if ctx.offer_makers_maker_tokens.amount > u64::MAX - escrow.amount {
        return Err(QuidError::BalanceOverflowError);
    }
    ctx.offer_makers_maker_tokens.amount = ctx.offer_makers_maker_tokens.amount + escrow.amount;
    ctx.escrowed_maker_tokens = None;
    ctx.offer = None;
    Ok(())
}

/// Cancels an offer on its maker's signature: the escrowed tokens go back to
/// the maker, and the offer record and escrow holding are closed.
pub fn cancel(ctx: &mut Cancel) -> (r: Result<(), QuidError>)
    ensures
        match cancel_error(*old(ctx), program_address(old(ctx).offer_address@, old(ctx).program_id@)) {
            Some(e) => r == Err::<(), QuidError>(e) && *final(ctx) == *old(ctx),
            None => r is Ok && *final(ctx) == cancelled(*old(ctx)),
        },
        forall|m: Seq<u8>| cancel_supply(*final(ctx), m) == cancel_supply(*old(ctx), m),
{
    let derived = derive_escrow(&ctx.offer_address, &ctx.program_id);
    cancel_with_escrow(ctx, derived)
}

} // verus!
