//! The ledger as a mathematical object: what it holds, when each operation is
//! refused, and what each operation that goes through makes of it.
//!
//! Numbers are unbounded here. The bound of 256 bits enters through
//! [`LedgerView::wf`], which says that all the value in custody fits in it.

use crate::address::Address;
use crate::types::{EscrowError, EscrowStatus, EventView, InputFault, Purpose, TransferView};
use crate::uint::u256_max;
use vstd::prelude::*;

verus! {

/// The number of basis points in the whole.
pub open spec fn bps_denominator() -> nat {
    10000
}

/// The platform fee on `amount` at `rate` basis points, rounded down.
pub open spec fn platform_fee_on(amount: nat, rate: nat) -> nat {
    (amount * rate / 10000) as nat
}

/// The processing fee on a refund of `amount`: one percent, rounded down.
pub open spec fn processing_fee_on(amount: nat) -> nat {
    amount / 100
}

/// One escrow record.
pub struct EscrowView {
    pub client: Address,
    pub freelancer: Address,
    pub amount: nat,
    pub deadline: nat,
    pub status: EscrowStatus,
    pub description: Seq<char>,
    pub created_at: nat,
}

impl EscrowView {
    /// What holds of every record in a ledger.
    pub open spec fn wf(self) -> bool {
        &&& 0 < self.amount <= u256_max()
        &&& self.client != self.freelancer
        &&& self.created_at < self.deadline <= u256_max()
    }

    /// The part of the deposit that is still in custody for this record.
    pub open spec fn held(self) -> nat {
        if self.status.holds_deposit() {
            self.amount
        } else {
            0
        }
    }

    /// The same record in another status.
    pub open spec fn with_status(self, status: EscrowStatus) -> EscrowView {
        EscrowView { status, ..self }
    }
}

/// The deposits still in custody for the given records, added up.
pub open spec fn held_total(escrows: Seq<EscrowView>) -> nat
    decreases escrows.len(),
{
    if escrows.len() == 0 {
        0
    } else {
        held_total(escrows.drop_last()) + escrows.last().held()
    }
}

/// The whole state of a ledger. The escrow with identifier `k` stands at
/// index `k - 1` of `escrows`, so the identifiers in use are `1 ..= escrows.len()`.
pub struct LedgerView {
    pub initialized: bool,
    pub owner: Address,
    pub platform_fee: nat,
    pub collected_fees: nat,
    pub escrows: Seq<EscrowView>,
}

impl LedgerView {
    /// The number of escrows created so far, which is also the last identifier given out.
    pub open spec fn counter(self) -> nat {
        self.escrows.len()
    }

    /// Whether `id` identifies an escrow.
    pub open spec fn has(self, id: nat) -> bool {
        1 <= id <= self.escrows.len()
    }

    /// The escrow that `id` identifies.
    pub open spec fn escrow(self, id: nat) -> EscrowView
        recommends
            self.has(id),
    {
        self.escrows[id - 1]
    }

    /// All the value that the custodian holds for this ledger: the accrued
    /// fees and the deposits of the escrows neither paid out nor refunded.
    pub open spec fn custody(self) -> nat {
        self.collected_fees + held_total(self.escrows)
    }

    /// What holds of every ledger: the fee rate is below the whole, every
    /// record is well formed, and the value in custody fits in 256 bits.
    pub open spec fn wf(self) -> bool {
        &&& self.platform_fee < bps_denominator()
        &&& forall|i: int| 0 <= i < self.escrows.len() ==> (#[trigger] self.escrows[i]).wf()
        &&& self.custody() <= u256_max()
    }

    /// The same ledger with the escrow `id` in another status.
    pub open spec fn with_status(self, id: nat, status: EscrowStatus) -> LedgerView
        recommends
            self.has(id),
    {
        LedgerView {
            escrows: self.escrows.update(id - 1, self.escrow(id).with_status(status)),
            ..self
        }
    }

    /// The same ledger with another balance of accrued fees.
    pub open spec fn with_fees(self, fees: nat) -> LedgerView {
        LedgerView { collected_fees: fees, ..self }
    }

    /// The ledger before anything has happened to it.
    pub open spec fn fresh(owner: Address) -> LedgerView {
        LedgerView {
            initialized: false,
            owner,
            platform_fee: 0,
            collected_fees: 0,
            escrows: Seq::empty(),
        }
    }

    // Initialization

    /// Why `init` is refused, if it is.
    pub open spec fn init_error(self) -> Option<EscrowError> {
        if self.initialized {
            Some(EscrowError::AlreadyInitialized)
        } else {
            None
        }
    }

    /// The ledger after `init` by `caller`.
    pub open spec fn after_init(self, platform_fee: nat, caller: Address) -> LedgerView {
        LedgerView { initialized: true, owner: caller, platform_fee, ..self }
    }

    // Creation

    /// Why `create_escrow` is refused, if it is.
    pub open spec fn create_error(
        self,
        freelancer: Address,
        deadline: nat,
        funding_amount: nat,
        caller: Address,
        now: nat,
    ) -> Option<EscrowError> {
        if funding_amount == 0 {
            Some(EscrowError::InvalidInput(InputFault::ZeroAmount))
        } else if freelancer == caller {
            Some(EscrowError::InvalidInput(InputFault::SameParty))
        } else if deadline <= now {
            Some(EscrowError::InvalidInput(InputFault::DeadlineNotFuture))
        } else {
            None
        }
    }

    /// The record that `create_escrow` adds.
    pub open spec fn new_escrow(
        freelancer: Address,
        deadline: nat,
        description: Seq<char>,
        funding_amount: nat,
        caller: Address,
        now: nat,
    ) -> EscrowView {
        EscrowView {
            client: caller,
            freelancer,
            amount: funding_amount,
            deadline,
            status: EscrowStatus::Funded,
            description,
            created_at: now,
        }
    }

    /// The ledger after `create_escrow`.
    pub open spec fn after_create(
        self,
        freelancer: Address,
        deadline: nat,
        description: Seq<char>,
        funding_amount: nat,
        caller: Address,
        now: nat,
    ) -> LedgerView {
        LedgerView {
            escrows: self.escrows.push(
                Self::new_escrow(freelancer, deadline, description, funding_amount, caller, now),
            ),
            ..self
        }
    }

    /// The notification of a `create_escrow` by `caller`.
    pub open spec fn create_event(
        self,
        freelancer: Address,
        funding_amount: nat,
        caller: Address,
    ) -> EventView {
        EventView::EscrowCreated {
            escrow_id: self.counter() + 1,
            client: caller,
            freelancer,
            amount: funding_amount,
        }
    }

    // Release

    /// Why `release_funds` is refused, if it is.
    pub open spec fn release_error(self, id: nat, caller: Address) -> Option<EscrowError> {
        if !self.has(id) {
            Some(EscrowError::NotFound)
        } else if self.escrow(id).client != caller {
            Some(EscrowError::Unauthorized)
        } else if self.escrow(id).status != EscrowStatus::Funded {
            Some(EscrowError::InvalidState)
        } else {
            None
        }
    }

    /// Why `auto_release` is refused, if it is.
    pub open spec fn auto_release_error(self, id: nat, now: nat) -> Option<EscrowError> {
        if !self.has(id) {
            Some(EscrowError::NotFound)
        } else if self.escrow(id).status != EscrowStatus::Funded {
            Some(EscrowError::InvalidState)
        } else if now <= self.escrow(id).deadline {
            Some(EscrowError::DeadlineNotPassed)
        } else {
            None
        }
    }

    /// The platform fee kept back when the escrow `id` is paid out.
    pub open spec fn release_fee(self, id: nat) -> nat {
        platform_fee_on(self.escrow(id).amount, self.platform_fee)
    }

    /// The ledger after the escrow `id` is paid out, by `release_funds` or `auto_release`.
    pub open spec fn after_release(self, id: nat) -> LedgerView {
        self.with_status(id, EscrowStatus::Completed).with_fees(
            self.collected_fees + self.release_fee(id),
        )
    }

    /// The transfer that pays the escrow `id` out.
    pub open spec fn release_transfer(self, id: nat) -> TransferView {
        TransferView {
            purpose: Purpose::Release,
            escrow_id: id,
            recipient: self.escrow(id).freelancer,
            amount: (self.escrow(id).amount - self.release_fee(id)) as nat,
            fee: self.release_fee(id),
        }
    }

    // Refund

    /// Why `refund_client` is refused, if it is.
    pub open spec fn refund_error(self, id: nat, caller: Address) -> Option<EscrowError> {
        if caller != self.owner {
            Some(EscrowError::Unauthorized)
        } else if !self.has(id) {
            Some(EscrowError::NotFound)
        } else if self.escrow(id).status != EscrowStatus::Disputed {
            Some(EscrowError::InvalidState)
        } else {
            None
        }
    }

    /// The processing fee kept back when the escrow `id` is refunded.
    pub open spec fn refund_fee(self, id: nat) -> nat {
        processing_fee_on(self.escrow(id).amount)
    }

    /// The ledger after the escrow `id` is refunded.
    pub open spec fn after_refund(self, id: nat) -> LedgerView {
        self.with_status(id, EscrowStatus::Refunded).with_fees(
            self.collected_fees + self.refund_fee(id),
        )
    }

    /// The transfer that refunds the escrow `id`.
    pub open spec fn refund_transfer(self, id: nat) -> TransferView {
        TransferView {
            purpose: Purpose::Refund,
            escrow_id: id,
            recipient: self.escrow(id).client,
            amount: (self.escrow(id).amount - self.refund_fee(id)) as nat,
            fee: self.refund_fee(id),
        }
    }

    // Dispute

    /// Why `raise_dispute` is refused, if it is.
    pub open spec fn dispute_error(self, id: nat, caller: Address) -> Option<EscrowError> {
        if !self.has(id) {
            Some(EscrowError::NotFound)
        } else if caller != self.escrow(id).client && caller != self.escrow(id).freelancer {
            Some(EscrowError::Unauthorized)
        } else if self.escrow(id).status != EscrowStatus::Funded {
            Some(EscrowError::InvalidState)
        } else {
            None
        }
    }

    /// The ledger after the escrow `id` is disputed.
    pub open spec fn after_dispute(self, id: nat) -> LedgerView {
        self.with_status(id, EscrowStatus::Disputed)
    }

    // Fees

    /// Why a caller is not shown the accrued fees, if it is not.
    pub open spec fn fees_error(self, caller: Address) -> Option<EscrowError> {
        if caller != self.owner {
            Some(EscrowError::Unauthorized)
        } else {
            None
        }
    }

    /// Why `withdraw_fees` is refused, if it is.
    pub open spec fn withdraw_error(self, caller: Address) -> Option<EscrowError> {
        if caller != self.owner {
            Some(EscrowError::Unauthorized)
        } else if self.collected_fees == 0 {
            Some(EscrowError::NoFundsToWithdraw)
        } else {
            None
        }
    }

    /// The ledger after `withdraw_fees`.
    pub open spec fn after_withdraw(self) -> LedgerView {
        self.with_fees(0)
    }

    /// The transfer that pays the accrued fees out.
    pub open spec fn withdraw_transfer(self) -> TransferView {
        TransferView {
            purpose: Purpose::FeeWithdrawal,
            escrow_id: 0,
            recipient: self.owner,
            amount: self.collected_fees,
            fee: 0,
        }
    }

    // Settlement

    /// Whether the operation behind `t` can be undone on this ledger: its
    /// effect still stands, and taking the value back into custody does not
    /// overflow.
    pub open spec fn owes(self, t: TransferView) -> bool {
        match t.purpose {
            Purpose::Release => {
                &&& self.has(t.escrow_id)
                &&& self.escrow(t.escrow_id).status == EscrowStatus::Completed
                &&& self.escrow(t.escrow_id).amount == t.amount + t.fee
                &&& t.fee <= self.collected_fees
                &&& self.custody() + t.amount <= u256_max()
            },
            Purpose::Refund => {
                &&& self.has(t.escrow_id)
                &&& self.escrow(t.escrow_id).status == EscrowStatus::Refunded
                &&& self.escrow(t.escrow_id).amount == t.amount + t.fee
                &&& t.fee <= self.collected_fees
                &&& self.custody() + t.amount <= u256_max()
            },
            Purpose::FeeWithdrawal => self.custody() + t.amount <= u256_max(),
        }
    }

    /// The ledger after the operation behind `t` is undone because the
    /// custodian did not carry the transfer out.
    pub open spec fn after_failed(self, t: TransferView) -> LedgerView {
        match t.purpose {
            Purpose::Release => self.with_status(t.escrow_id, EscrowStatus::Funded).with_fees(
                (self.collected_fees - t.fee) as nat,
            ),
            Purpose::Refund => self.with_status(t.escrow_id, EscrowStatus::Disputed).with_fees(
                (self.collected_fees - t.fee) as nat,
            ),
            Purpose::FeeWithdrawal => self.with_fees(self.collected_fees + t.amount),
        }
    }

    /// The notification that follows a transfer carried out, if one does.
    pub open spec fn notice(t: TransferView) -> Option<EventView> {
        match t.purpose {
            Purpose::Release => Some(
                EventView::FundsReleased {
                    escrow_id: t.escrow_id,
                    freelancer: t.recipient,
                    amount: t.amount,
                },
            ),
            Purpose::Refund => Some(
                EventView::FundsRefunded {
                    escrow_id: t.escrow_id,
                    client: t.recipient,
                    amount: t.amount,
                },
            ),
            Purpose::FeeWithdrawal => None,
        }
    }
}

/// At a rate below the whole, the platform fee is less than the amount it is taken from.
pub proof fn lemma_platform_fee_below(amount: nat, rate: nat)
    requires
        0 < amount,
        rate < bps_denominator(),
    ensures
        platform_fee_on(amount, rate) < amount,
{
    assert(amount * rate < amount * 10000) by (nonlinear_arith)
        requires
            0 < amount,
            rate < 10000,
    ;
    assert(amount * rate / 10000 < amount) by (nonlinear_arith)
        requires
            0 <= amount * rate < amount * 10000,
    ;
}

/// The processing fee is less than the amount it is taken from.
pub proof fn lemma_processing_fee_below(amount: nat)
    requires
        0 < amount,
    ensures
        processing_fee_on(amount) < amount,
{
}

/// A record added at the end adds what is held for it.
pub proof fn lemma_held_total_push(escrows: Seq<EscrowView>, e: EscrowView)
    ensures
        held_total(escrows.push(e)) == held_total(escrows) + e.held(),
{
    assert(escrows.push(e).drop_last() =~= escrows);
}

/// A record replaced changes the total by the difference of what is held for the two.
pub proof fn lemma_held_total_update(escrows: Seq<EscrowView>, i: int, e: EscrowView)
    requires
        0 <= i < escrows.len(),
    ensures
        held_total(escrows.update(i, e)) + escrows[i].held() == held_total(escrows) + e.held(),
    decreases escrows.len(),
{
    let updated = escrows.update(i, e);
    if i == escrows.len() - 1 {
        assert(updated.drop_last() =~= escrows.drop_last());
    } else {
        lemma_held_total_update(escrows.drop_last(), i, e);
        assert(updated.drop_last() =~= escrows.drop_last().update(i, e));
    }
}

/// What is held for the first `n` records is part of the total.
pub proof fn lemma_held_total_prefix(escrows: Seq<EscrowView>, n: int)
    requires
        0 <= n <= escrows.len(),
    ensures
        held_total(escrows.take(n)) <= held_total(escrows),
    decreases escrows.len(),
{
    if n == escrows.len() {
        assert(escrows.take(n) =~= escrows);
    } else {
        lemma_held_total_prefix(escrows.drop_last(), n);
        assert(escrows.drop_last().take(n) =~= escrows.take(n));
    }
}

/// What is held for one record is part of the total.
pub proof fn lemma_held_within_total(escrows: Seq<EscrowView>, i: int)
    requires
        0 <= i < escrows.len(),
    ensures
        escrows[i].held() <= held_total(escrows),
    decreases escrows.len(),
{
    if i < escrows.len() - 1 {
        lemma_held_within_total(escrows.drop_last(), i);
    }
}

} // verus!
