use vstd::prelude::*;

use crate::accept::{accept_error, accepted, Accept};
use crate::cancel::{cancel_error, cancelled, Cancel};
use crate::state::QuidError;

verus! {

/// Only the recorded maker can cancel: while the offer is open, a cancellation
/// signed by anyone else is refused as unauthorized, whatever else the
/// referenced accounts hold.
pub proof fn lemma_cancel_requires_maker(c: Cancel, derived: (Seq<u8>, u8))
    requires
        c.offer is Some,
        c.escrowed_maker_tokens is Some,
        c.offer.unwrap().maker@ != c.offer_maker@,
    ensures
        cancel_error(c, derived) == Some(QuidError::AuthorizationError),
{
}

/// An open offer is only ever settled once: after a successful acceptance the
/// record and holding are gone, and any later acceptance or cancellation that
/// references what is left fails because the record is not found.
pub proof fn lemma_accept_settles_once(
    a: Accept,
    derived: (Seq<u8>, u8),
    later_accept: Accept,
    later_derived: (Seq<u8>, u8),
    later_cancel: Cancel,
    cancel_derived: (Seq<u8>, u8),
)
    requires
        accept_error(a, derived) is None,
        later_accept.offer == accepted(a).offer,
        later_cancel.offer == accepted(a).offer,
    ensures
        accepted(a).offer is None,
        accepted(a).escrowed_maker_tokens is None,
        accept_error(later_accept, later_derived) == Some(QuidError::RecordNotFoundError),
        cancel_error(later_cancel, cancel_derived) == Some(QuidError::RecordNotFoundError),
{
}

/// An open offer is only ever settled once: after a successful cancellation
/// the record and holding are gone, and any later acceptance or cancellation
/// that references what is left fails because the record is not found.
pub proof fn lemma_cancel_settles_once(
    c: Cancel,
    derived: (Seq<u8>, u8),
    later_accept: Accept,
    later_derived: (Seq<u8>, u8),
    later_cancel: Cancel,
    cancel_derived: (Seq<u8>, u8),
)
    requires
        cancel_error(c, derived) is None,
        later_accept.offer == cancelled(c).offer,
        later_cancel.offer == cancelled(c).offer,
    ensures
        cancelled(c).offer is None,
        cancelled(c).escrowed_maker_tokens is None,
        accept_error(later_accept, later_derived) == Some(QuidError::RecordNotFoundError),
        cancel_error(later_cancel, cancel_derived) == Some(QuidError::RecordNotFoundError),
{
}

/// The taker must pay in the kind the offer asks for: while the offer is open,
/// an acceptance whose paying balance holds another kind of token is refused
/// as an asset mismatch.
pub proof fn lemma_accept_enforces_asset_kind(a: Accept, derived: (Seq<u8>, u8))
    requires
        a.offer is Some,
        a.escrowed_maker_tokens is Some,
        a.offer_takers_taker_tokens.mint@ != a.offer.unwrap().taker_mint@,
    ensures
        accept_error(a, derived) == Some(QuidError::AssetMismatchError),
{
}

} // verus!
