use vstd::prelude::*;

use crate::address::Address;

verus! {

/// Why an operation was rejected. A rejected operation changes nothing.
#[derive(Debug, Clone, Copy, PartialEq, Eq, Structural)]
pub enum QuidError {
    /// The caller, or the owner of a referenced balance, is not the expected party.
    AuthorizationError,
    /// A referenced balance holds another kind of token than the offer asks for.
    AssetMismatchError,
    /// The source balance holds less than the amount to move.
    InsufficientBalanceError,
    /// The offer record or its escrow holding does not exist (any more).
    RecordNotFoundError,
    /// The offer record or the escrow holding could not be allocated: the place is taken.
    AllocationError,
    /// The escrow holding is not the one derived from the offer record's address.
    EscrowMismatchError,
    /// A credited balance would exceed the largest representable amount.
    BalanceOverflowError,
    /// Two references that must name different balances name the same one.
    DuplicateAccountError,
}

/// A balance of one kind of token, owned by one identity.
#[derive(Debug, Clone, Copy, PartialEq, Eq)]
pub struct TokenAccount {
    pub address: Address,
    pub mint: Address,
    pub owner: Address,
    pub amount: u64,
}

/// The durable record of one open offer.
#[derive(Debug, Clone, Copy, PartialEq, Eq)]
pub struct Offer {
    /// Who made the offer, and alone may cancel it.
    pub maker: Address,
    /// The kind of token the maker wants in return.
    pub taker_mint: Address,
    /// How many of them.
    pub taker_amount: u64,
    /// The bump that, with the offer's own address, derives the escrow holding.
    pub escrowed_maker_tokens_bump: u8,
}

/// The units of token kind `mint` held by `t`.
pub open spec fn held(t: TokenAccount, mint: Seq<u8>) -> int {
    if t.mint@ == mint {
        t.amount as int
    } else {
        0
    }
}

/// The units of token kind `mint` held by a holding that may not exist.
pub open spec fn held_opt(t: Option<TokenAccount>, mint: Seq<u8>) -> int {
    match t {
        Some(a) => held(a, mint),
        None => 0,
    }
}

/// A holding exists, and is bound to the derived identity: its address and its
/// authority are both that identity.
pub open spec fn escrow_bound(t: TokenAccount, derived: Seq<u8>) -> bool {
    t.address@ == derived && t.owner@ == derived
}

} // verus!
