use vstd::prelude::*;

use crate::address::Address;

verus! {

/// The canonical program-derived address for one seed under a program, with its
/// bump: the first bump, counting down from 255, whose hash falls off the curve.
pub uninterp spec fn program_address(seed: Seq<u8>, program: Seq<u8>) -> (Seq<u8>, u8);

/// Relies on anchor_lang::derive_program_address (const-crypto's ed25519 module):
/// the canonical address and bump derived from the single seed `seed` under
/// `program`, which depend on those bytes alone. It panics only where every
/// one of the 256 candidate hashes lies on the curve.
#[verifier::external_body]
pub(crate) fn derive_escrow(seed: &Address, program: &Address) -> (r: (Address, u8))
    ensures
        r.0@ == program_address(seed@, program@).0,
        r.1 == program_address(seed@, program@).1,
{
    let (bytes, bump) = anchor_lang::derive_program_address(&[&seed.bytes[..]], &program.bytes);
    (Address { bytes }, bump)
}

} // verus!
