use vstd::prelude::*;

use crate::address::Address;
use crate::escrow::{derive_escrow, program_address};
use crate::state::{held, held_opt, Offer, QuidError, TokenAccount};

verus! {

/// The accounts that opening an offer references.
#[derive(Debug, Clone, Copy, PartialEq, Eq)]
pub struct Make {
    /// The protocol's own program identity, under which the escrow is derived.
    pub program_id: Address,
    /// Where the new offer record is to be allocated.
    pub offer_address: Address,
    /// What is stored there now; it must be empty.
    pub offer: Option<Offer>,
    /// The maker, who signed the operation.
    pub offer_maker: Address,
    /// The maker's balance of the offered kind.
    pub offer_makers_maker_tokens: TokenAccount,
    /// Where the escrow holding is to be allocated.
    pub escrow_address: Address,
    /// What is stored there now; it must be empty.
    pub escrowed_maker_tokens: Option<TokenAccount>,
    /// The kind of token offered.
    pub maker_mint: Address,
    /// The kind of token asked for in return.
    pub taker_mint: Address,
}

/// The first reason, if any, for which opening the offer is rejected, given
/// the identity and bump derived from the offer record's address.
pub open spec fn make_error(c: Make, derived: (Seq<u8>, u8), bump: u8, amount: u64) -> Option<QuidError> {
    if c.offer.is_some() || c.escrowed_maker_tokens.is_some() {
        Some(QuidError::AllocationError)
    } else if derived.0 != c.escrow_address@ || derived.1 != bump {
        Some(QuidError::EscrowMismatchError)
    } else if c.offer_makers_maker_tokens.mint@ != c.maker_mint@ {
        Some(QuidError::AssetMismatchError)
    } else if c.offer_makers_maker_tokens.owner@ != c.offer_maker@ {
        Some(QuidError::AuthorizationError)
    } else if c.offer_makers_maker_tokens.address@ == c.escrow_address@ {
        Some(QuidError::DuplicateAccountError)
    } else if c.offer_makers_maker_tokens.amount < amount {
        Some(QuidError::InsufficientBalanceError)
    } else {
        None
    }
}

/// The accounts after a successful opening: the record is written, the holding
/// is created under its own authority, and `amount` moves into it.
pub open spec fn made(c: Make, bump: u8, amount: u64, taker_amount: u64) -> Make {
    Make {
        offer: Some(
            Offer {
                maker: c.offer_maker,
                taker_mint: c.taker_mint,
                taker_amount: taker_amount,
                escrowed_maker_tokens_bump: bump,
            },
        ),
        offer_makers_maker_tokens: TokenAccount {
            amount: (c.offer_makers_maker_tokens.amount - amount) as u64,
            ..c.offer_makers_maker_tokens
        },
        escrowed_maker_tokens: Some(
            TokenAccount {
                address: c.escrow_address,
                mint: c.maker_mint,
                owner: c.escrow_address,
                amount: amount,
            },
        ),
        ..c
    }
}

/// The units of kind `mint` over every balance that opening an offer references.
pub open spec fn make_supply(c: Make, mint: Seq<u8>) -> int {
    held(c.offer_makers_maker_tokens, mint) + held_opt(c.escrowed_maker_tokens, mint)
}

/// Opens an offer, given the identity and bump derived from the offer record's
/// address: all of it, or nothing.
pub fn make_with_escrow(
    ctx: &mut Make,
    derived: (Address, u8),
    escrowed_maker_tokens_bump: u8,
    offer_maker_amount: u64,
    offer_taker_amount: u64,
) -> (r: Result<(), QuidError>)
    ensures
        match make_error(*old(ctx), (derived.0@, derived.1), escrowed_maker_tokens_bump, offer_maker_amount) {
            Some(e) => r == Err::<(), QuidError>(e) && *final(ctx) == *old(ctx),
            None => r is Ok && *final(ctx) == made(
                *old(ctx),
                escrowed_maker_tokens_bump,
                offer_maker_amount,
                offer_taker_amount,
            ),
        },
        forall|m: Seq<u8>| make_supply(*final(ctx), m) == make_supply(*old(ctx), m),
{
    if ctx.offer.is_some() || ctx.escrowed_maker_tokens.is_some() {
        return Err(QuidError::AllocationError);
    }
    if !derived.0.same(&ctx.escrow_address) || derived.1 != escrowed_maker_tokens_bump {
        return Err(QuidError::EscrowMismatchError);
    }
    if !ctx.offer_makers_maker_tokens.mint.same(&ctx.maker_mint) {
        return Err(QuidError::AssetMismatchError);
    }
    if !ctx.offer_makers_maker_tokens.owner.same(&ctx.offer_maker) {
        return Err(QuidError::AuthorizationError);
    }
    if ctx.offer_makers_maker_tokens.address.same(&ctx.escrow_address) {
        return Err(QuidError::DuplicateAccountError);
    }
    if ctx.offer_makers_maker_tokens.amount < offer_maker_amount {
        return Err(QuidError::InsufficientBalanceError);
    }
    ctx.offer = Some(
        Offer {
            maker: ctx.offer_maker,
            taker_mint: ctx.taker_mint,
            taker_amount: offer_taker_amount,
            escrowed_maker_tokens_bump,
        },
    );
    ctx.offer_makers_maker_tokens.amount = ctx.offer_makers_maker_tokens.amount - offer_maker_amount;
    ctx.escrowed_maker_tokens = Some(
        TokenAccount {
            address: ctx.escrow_address,
            mint: ctx.maker_mint,
            owner: ctx.escrow_address,
            amount: offer_maker_amount,
        },
    );
    Ok(())
}

/// Opens a binding offer of `offer_maker_amount` tokens of the maker's kind for
/// `offer_taker_amount` tokens of the kind asked for, locking the maker's
/// tokens in an escrow holding derived from the offer record's address.
pub fn make(
    ctx: &mut Make,
    escrowed_maker_tokens_bump: u8,
    offer_maker_amount: u64,
    offer_taker_amount: u64,
) -> (r: Result<(), QuidError>)
    ensures
        match make_error(
            *old(ctx),
            program_address(old(ctx).offer_address@, old(ctx).program_id@),
            escrowed_maker_tokens_bump,
            offer_maker_amount,
        ) {
            Some(e) => r == Err::<(), QuidError>(e) && *final(ctx) == *old(ctx),
            None => r is Ok && *final(ctx) == made(
                *old(ctx),
                escrowed_maker_tokens_bump,
                offer_maker_amount,
                offer_taker_amount,
            ),
        },
        forall|m: Seq<u8>| make_supply(*final(ctx), m) == make_supply(*old(ctx), m),
{
    let derived = derive_escrow(&ctx.offer_address, &ctx.program_id);
    make_with_escrow(ctx, derived, escrowed_maker_tokens_bump, offer_maker_amount, offer_taker_amount)
}

} // verus!
