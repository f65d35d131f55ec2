//! An escrowed two-party token swap: a maker locks tokens of one kind in a
//! holding that only the protocol can sign for, and a taker releases them by
//! paying the requested amount of another kind. Every operation is a pure
//! transition over the accounts that it references, and either applies all
//! of its effects or none.
pub mod accept;
pub mod address;
pub mod cancel;
pub mod escrow;
pub mod laws;
pub mod make;
pub mod state;

pub use accept::{accept, accept_with_escrow, Accept};
pub use address::Address;
pub use cancel::{cancel, cancel_with_escrow, Cancel};
pub use make::{make, make_with_escrow, Make};
pub use state::{Offer, QuidError, TokenAccount};
