//! An escrow ledger for engagements between a client and a freelancer.
//!
//! A client deposits an amount for a freelancer. The deposit is paid out when
//! the client releases it or when the deadline has passed, and either party
//! can put it in dispute for the owner of the ledger to refund. The ledger
//! keeps a fee on every payout and refund. It moves no value itself: it says
//! which transfer is due and is told how that transfer went.

pub mod address;
pub mod fees;
pub mod laws;
pub mod ledger;
pub mod model;
pub mod types;
pub mod uint;

pub use crate::address::Address;
pub use crate::ledger::{EscrowData, FreelanceEscrow};
pub use crate::types::{EscrowError, EscrowStatus, Event, InputFault, Purpose, Transfer};
pub use crate::uint::U256;
