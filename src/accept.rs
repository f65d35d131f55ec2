use vstd::prelude::*;

use crate::address::Address;
use crate::escrow::{derive_escrow, program_address};
use crate::state::{escrow_bound, held, held_opt, Offer, QuidError, TokenAccount};

verus! {

/// The accounts that accepting an offer references.
#[derive(Debug, Clone, Copy, PartialEq, Eq)]
pub struct Accept {
    /// The protocol's own program identity, under which the escrow is derived.
    pub program_id: Address,
    /// The address of the offer record.
    pub offer_address: Address,
    /// The offer record, if it still exists.
    pub offer: Option<Offer>,
    /// The escrow holding, if it still exists.
    pub escrowed_maker_tokens: Option<TokenAccount>,
    /// Who the caller says made the offer; it need not have signed.
    pub offer_maker: Address,
    /// The taker, who signed the operation.
    pub offer_taker: Address,
    /// The maker's balance of the kind asked for: the payment goes here.
    pub offer_makers_taker_tokens: TokenAccount,
    /// The taker's balance of the kind asked for: the payment comes from here.
    pub offer_takers_taker_tokens: TokenAccount,
    /// The taker's balance of the offered kind: the escrowed tokens go here.
    pub offer_takers_maker_tokens: TokenAccount,
    /// The kind of token asked for.
    pub taker_mint: Address,
}

/// The first reason, if any, for which accepting the offer is rejected, given
/// the identity and bump derived from the offer record's address.
pub open spec fn accept_error(c: Accept, derived: (Seq<u8>, u8)) -> Option<QuidError> {
    if c.offer is None || c.escrowed_maker_tokens is None {
        Some(QuidError::RecordNotFoundError)
    } else {
        let offer = c.offer.unwrap();
        let escrow = c.escrowed_maker_tokens.unwrap();
        if c.offer_takers_taker_tokens.mint@ != offer.taker_mint@
            || c.taker_mint@ != offer.taker_mint@
            || c.offer_makers_taker_tokens.mint@ != offer.taker_mint@
            || c.offer_takers_maker_tokens.mint@ != escrow.mint@ {
            Some(QuidError::AssetMismatchError)
        } else if offer.maker@ != c.offer_maker@ {
            Some(QuidError::AuthorizationError)
        } else if !escrow_bound(escrow, derived.0) || derived.1 != offer.escrowed_maker_tokens_bump {
            Some(QuidError::EscrowMismatchError)
        } else if c.offer_takers_taker_tokens.owner@ != c.offer_taker@
            || c.offer_makers_taker_tokens.owner@ != c.offer_maker@
            || c.offer_takers_maker_tokens.owner@ != c.offer_taker@ {
            Some(QuidError::AuthorizationError)
        } else if c.offer_takers_taker_tokens.address@ == c.offer_makers_taker_tokens.address@
            || c.offer_takers_maker_tokens.address@ == escrow.address@ {
            Some(QuidError::DuplicateAccountError)
        } else if c.offer_takers_taker_tokens.amount < offer.taker_amount {
            Some(QuidError::InsufficientBalanceError)
        } else if c.offer_makers_taker_tokens.amount + offer.taker_amount > u64::MAX
            || c.offer_takers_maker_tokens.amount + escrow.amount > u64::MAX {
            Some(QuidError::BalanceOverflowError)
        } else {
            None
        }
    }
}

/// The accounts after a successful acceptance: the maker is paid, the taker
/// receives the whole escrowed balance, and record and holding are gone.
pub open spec fn accepted(c: Accept) -> Accept {
    let offer = c.offer.unwrap();
    let escrow = c.escrowed_maker_tokens.unwrap();
    Accept {
        offer: None,
        escrowed_maker_tokens: None,
        offer_takers_taker_tokens: TokenAccount {
            amount: (c.offer_takers_taker_tokens.amount - offer.taker_amount) as u64,
            ..c.offer_takers_taker_tokens
        },
        offer_makers_taker_tokens: TokenAccount {
            amount: (c.offer_makers_taker_tokens.amount + offer.taker_amount) as u64,
            ..c.offer_makers_taker_tokens
        },
        offer_takers_maker_tokens: TokenAccount {
            amount: (c.offer_takers_maker_tokens.amount + escrow.amount) as u64,
            ..c.offer_takers_maker_tokens
        },
        ..c
    }
}

/// The units of kind `mint` over every balance that accepting an offer references.
pub open spec fn accept_supply(c: Accept, mint: Seq<u8>) -> int {
    held(c.offer_makers_taker_tokens, mint) + held(c.offer_takers_taker_tokens, mint)
        + held(c.offer_takers_maker_tokens, mint) + held_opt(c.escrowed_maker_tokens, mint)
}

/// Accepts an offer, given the identity and bump derived from the offer
/// record's address: all of it, or nothing.
pub fn accept_with_escrow(ctx: &mut Accept, derived: (Address, u8)) -> (r: Result<(), QuidError>)
    ensures
        match accept_error(*old(ctx), (derived.0@, derived.1)) {
            Some(e) => r == Err::<(), QuidError>(e) && *final(ctx) == *old(ctx),
            None => r is Ok && *final(ctx) == accepted(*old(ctx)),
        },
        forall|m: Seq<u8>| accept_supply(*final(ctx), m) == accept_supply(*old(ctx), m),
{
    let offer = match ctx.offer {
        Some(o) => o,
        None => return Err(QuidError::RecordNotFoundError),
    };
    let escrow = match ctx.escrowed_maker_tokens {
        Some(e) => e,
        None => return Err(QuidError::RecordNotFoundError),
    };
    if !ctx.offer_takers_taker_tokens.mint.same(&offer.taker_mint)
        || !ctx.taker_mint.same(&offer.taker_mint)
        || !ctx.offer_makers_taker_tokens.mint.same(&offer.taker_mint)
        || !ctx.offer_takers_maker_tokens.mint.same(&escrow.mint) {
        return Err(QuidError::AssetMismatchError);
    }
    if !offer.maker.same(&ctx.offer_maker) {
        return Err(QuidError::AuthorizationError);
    }
    if !escrow.address.same(&derived.0) || !escrow.owner.same(&derived.0)
        || derived.1 != offer.escrowed_maker_tokens_bump {
        return Err(QuidError::EscrowMismatchError);
    }
    if !ctx.offer_takers_taker_tokens.owner.same(&ctx.offer_taker)
        || !ctx.offer_makers_taker_tokens.owner.same(&ctx.offer_maker)
        || !ctx.offer_takers_maker_tokens.owner.same(&ctx.offer_taker) {
        return Err(QuidError::AuthorizationError);
    }
    if ctx.offer_takers_taker_tokens.address.same(&ctx.offer_makers_taker_tokens.address)
        || ctx.offer_takers_maker_tokens.address.same(&escrow.address) {
        return Err(QuidError::DuplicateAccountError);
    }
    if ctx.offer_takers_taker_tokens.amount < offer.taker_amount {
        return Err(QuidError::InsufficientBalanceError);
    }
    if ctx.offer_makers_taker_tokens.amount > u64::MAX - offer.taker_amount
        || ctx.offer_takers_maker_tokens.amount > u64::MAX - escrow.amount {
        return Err(QuidError::BalanceOverflowError);
    }
    // Pay the maker, then release the whole escrowed balance to the taker.
    ctx.offer_takers_taker_tokens.amount = ctx.offer_takers_taker_tokens.amount - offer.taker_amount;
    ctx.offer_makers_taker_tokens.amount = ctx.offer_makers_taker_tokens.amount + offer.taker_amount;
    ctx.offer_takers_maker_tokens.amount = ctx.offer_takers_maker_tokens.amount + escrow.amount;
    ctx.escrowed_maker_tokens = None;
    ctx.offer = None;
    Ok(())
}

/// Accepts an offer by paying the requested amount and kind of tokens, which
/// releases the maker's escrowed tokens to the taker and closes the offer.
pub fn accept(ctx: &mut Accept) -> (r: Result<(), QuidError>)
    ensures
        match accept_error(*old(ctx), program_address(old(ctx).offer_address@, old(ctx).program_id@)) {
            Some(e) => r == Err::<(), QuidError>(e) && *final(ctx) == *old(ctx),
            None => r is Ok && *final(ctx) == accepted(*old(ctx)),
        },
        forall|m: Seq<u8>| accept_supply(*final(ctx), m) == accept_supply(*old(ctx), m),
{
    let derived = derive_escrow(&ctx.offer_address, &ctx.program_id);
    accept_with_escrow(ctx, derived)
}

} // verus!
