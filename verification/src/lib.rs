//! A two-party, single-asset custodial escrow.
//!
//! A depositor commits an amount of one asset for a recipient. The funds sit
//! in a custody holding bound to an escrow record until the recipient
//! withdraws them or the depositor cancels. Whichever of the two comes first
//! completes the record; nothing moves funds out of custody a second time.
//!
//! Every operation works on a set of accounts handed in as plain values and
//! either applies in full or leaves those accounts as they were.

pub mod address;
pub mod authorization;
pub mod cancel;
pub mod error;
pub mod holding;
pub mod initialize;
pub mod laws;
pub mod record;
mod settlement;
pub mod withdraw;

pub use address::Address;
pub use authorization::authorize;
pub use cancel::{cancel_escrow, CancelEscrow};
pub use error::EscrowError;
pub use holding::{transfer, Holding};
pub use initialize::{initialize_escrow, InitializeEscrow};
pub use record::{CustodyBinding, Escrow};
pub use withdraw::{withdraw, Withdraw};
