//! The values that the ledger's operations take and give: statuses, errors,
//! transfers to carry out and notifications to publish.

use crate::address::Address;
use crate::uint::U256;
use vstd::prelude::*;

verus! {

/// Where an escrow stands in its life.
#[derive(Clone, Copy, Debug, PartialEq, Eq, Structural)]
pub enum EscrowStatus {
    /// The deposit is held and may be released or disputed.
    Funded,
    /// The deposit, less the platform fee, went to the freelancer.
    Completed,
    /// A party has asked for arbitration; only the owner can act now.
    Disputed,
    /// The deposit, less the processing fee, went back to the client.
    Refunded,
}

impl EscrowStatus {
    /// Whether a record in this status may move to `next` in one operation.
    pub open spec fn can_become(self, next: EscrowStatus) -> bool {
        match (self, next) {
            (EscrowStatus::Funded, EscrowStatus::Completed) => true,
            (EscrowStatus::Funded, EscrowStatus::Disputed) => true,
            (EscrowStatus::Disputed, EscrowStatus::Refunded) => true,
            _ => false,
        }
    }

    /// Whether a record in this status can, over any number of operations,
    /// come to stand in `later`.
    pub open spec fn leads_to(self, later: EscrowStatus) -> bool {
        match (self, later) {
            (EscrowStatus::Funded, EscrowStatus::Completed) => true,
            (EscrowStatus::Funded, EscrowStatus::Disputed) => true,
            (EscrowStatus::Funded, EscrowStatus::Refunded) => true,
            (EscrowStatus::Disputed, EscrowStatus::Refunded) => true,
            _ => false,
        }
    }

    /// Whether the deposit of a record in this status is still in custody.
    pub open spec fn holds_deposit(self) -> bool {
        self == EscrowStatus::Funded || self == EscrowStatus::Disputed
    }
}

/// What is wrong with the arguments of a rejected `create_escrow`.
#[derive(Clone, Copy, Debug, PartialEq, Eq, Structural)]
pub enum InputFault {
    /// The deposit is zero.
    ZeroAmount,
    /// The freelancer is the client.
    SameParty,
    /// The deadline is not after the current time.
    DeadlineNotFuture,
}

/// Why an operation was refused. A refused operation changes nothing.
#[derive(Clone, Copy, Debug, PartialEq, Eq, Structural)]
pub enum EscrowError {
    /// The ledger has its owner and fee rate already.
    AlreadyInitialized,
    /// An argument of `create_escrow` is not acceptable.
    InvalidInput(InputFault),
    /// No escrow has the identifier.
    NotFound,
    /// The caller does not have the role that the operation asks for.
    Unauthorized,
    /// The escrow is not in the status that the operation asks for.
    InvalidState,
    /// The deadline of the escrow has not passed yet.
    DeadlineNotPassed,
    /// No fees have accrued.
    NoFundsToWithdraw,
    /// The custodian did not carry out the transfer.
    TransferFailed,
}

/// The operation that a transfer belongs to.
#[derive(Clone, Copy, Debug, PartialEq, Eq, Structural)]
pub enum Purpose {
    /// Payout of an escrow to its freelancer.
    Release,
    /// Refund of a disputed escrow to its client.
    Refund,
    /// Payout of the accrued fees to the owner.
    FeeWithdrawal,
}

/// A movement of value that the custodian is asked to carry out.
#[derive(Clone, Copy, Debug, PartialEq, Eq)]
pub struct Transfer {
    /// The operation that asks for it.
    pub purpose: Purpose,
    /// The escrow paid out or refunded; zero for a fee withdrawal.
    pub escrow_id: U256,
    /// Who receives the value.
    pub recipient: Address,
    /// The value to move.
    pub amount: U256,
    /// The fee that the operation kept back; zero for a fee withdrawal.
    pub fee: U256,
}

/// A [`Transfer`] with its numbers as mathematical integers.
pub struct TransferView {
    pub purpose: Purpose,
    pub escrow_id: nat,
    pub recipient: Address,
    pub amount: nat,
    pub fee: nat,
}

impl View for Transfer {
    type V = TransferView;

    open spec fn view(&self) -> TransferView {
        TransferView {
            purpose: self.purpose,
            escrow_id: self.escrow_id@,
            recipient: self.recipient,
            amount: self.amount@,
            fee: self.fee@,
        }
    }
}

/// A notification for the ledger's observers.
#[derive(Clone, Copy, Debug, PartialEq, Eq)]
pub enum Event {
    /// An escrow was created and funded.
    EscrowCreated { escrow_id: U256, client: Address, freelancer: Address, amount: U256 },
    /// An escrow was paid out; `amount` is what the freelancer received.
    FundsReleased { escrow_id: U256, freelancer: Address, amount: U256 },
    /// An escrow was refunded; `amount` is what the client received.
    FundsRefunded { escrow_id: U256, client: Address, amount: U256 },
    /// A party disputed an escrow.
    DisputeRaised { escrow_id: U256, raiser: Address },
}

/// An [`Event`] with its numbers as mathematical integers.
pub enum EventView {
    EscrowCreated { escrow_id: nat, client: Address, freelancer: Address, amount: nat },
    FundsReleased { escrow_id: nat, freelancer: Address, amount: nat },
    FundsRefunded { escrow_id: nat, client: Address, amount: nat },
    DisputeRaised { escrow_id: nat, raiser: Address },
}

impl View for Event {
    type V = EventView;

    open spec fn view(&self) -> EventView {
        match *self {
            Event::EscrowCreated { escrow_id, client, freelancer, amount } => {
                EventView::EscrowCreated {
                    escrow_id: escrow_id@,
                    client,
                    freelancer,
                    amount: amount@,
                }
            },
            Event::FundsReleased { escrow_id, freelancer, amount } => {
                EventView::FundsReleased { escrow_id: escrow_id@, freelancer, amount: amount@ }
            },
            Event::FundsRefunded { escrow_id, client, amount } => {
                EventView::FundsRefunded { escrow_id: escrow_id@, client, amount: amount@ }
            },
            Event::DisputeRaised { escrow_id, raiser } => {
                EventView::DisputeRaised { escrow_id: escrow_id@, raiser }
            },
        }
    }
}

} // verus!
