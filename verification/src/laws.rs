//! What holds of every ledger, whatever is attempted on it.
//!
//! The laws speak of [`LedgerView`], the state that the contracts of
//! [`FreelanceEscrow`](crate::ledger::FreelanceEscrow) are stated over.

use crate::address::Address;
use crate::model::{
    bps_denominator, lemma_held_total_push, lemma_held_total_update, lemma_platform_fee_below,
    lemma_processing_fee_below, LedgerView,
};
use crate::types::{EscrowError, EscrowStatus, InputFault};
use crate::uint::u256_max;
use vstd::prelude::*;

verus! {

/// An operation that someone attempts on a ledger.
pub enum Action {
    Init { platform_fee: nat, caller: Address },
    Create {
        freelancer: Address,
        deadline: nat,
        description: Seq<char>,
        funding_amount: nat,
        caller: Address,
        now: nat,
    },
    Release { id: nat, caller: Address },
    AutoRelease { id: nat, now: nat },
    Refund { id: nat, caller: Address },
    Dispute { id: nat, caller: Address },
    Withdraw { caller: Address },
}

impl LedgerView {
    /// Why the ledger refuses `action`, if it does.
    pub open spec fn refusal(self, action: Action) -> Option<EscrowError> {
        match action {
            Action::Init { platform_fee, caller } => self.init_error(),
            Action::Create { freelancer, deadline, description, funding_amount, caller, now } => {
                self.create_error(freelancer, deadline, funding_amount, caller, now)
            },
            Action::Release { id, caller } => self.release_error(id, caller),
            Action::AutoRelease { id, now } => self.auto_release_error(id, now),
            Action::Refund { id, caller } => self.refund_error(id, caller),
            Action::Dispute { id, caller } => self.dispute_error(id, caller),
            Action::Withdraw { caller } => self.withdraw_error(caller),
        }
    }

    /// The ledger after `action` was attempted and any transfer it asked for
    /// was carried out: changed as the operation says, or as it was if the
    /// action was refused.
    pub open spec fn attempt(self, action: Action) -> LedgerView {
        if self.refusal(action) is Some {
            self
        } else {
            match action {
                Action::Init { platform_fee, caller } => self.after_init(platform_fee, caller),
                Action::Create {
                    freelancer,
                    deadline,
                    description,
                    funding_amount,
                    caller,
                    now,
                } => self.after_create(
                    freelancer,
                    deadline,
                    description,
                    funding_amount,
                    caller,
                    now,
                ),
                Action::Release { id, caller } => self.after_release(id),
                Action::AutoRelease { id, now } => self.after_release(id),
                Action::Refund { id, caller } => self.after_refund(id),
                Action::Dispute { id, caller } => self.after_dispute(id),
                Action::Withdraw { caller } => self.after_withdraw(),
            }
        }
    }

    /// The ledger after the `actions` were attempted one after the other.
    pub open spec fn run(self, actions: Seq<Action>) -> LedgerView
        decreases actions.len(),
    {
        if actions.len() == 0 {
            self
        } else {
            self.run(actions.drop_last()).attempt(actions.last())
        }
    }
}

/// A creation that goes through adds exactly one escrow, under the next
/// identifier: funded, created at the time given, with the parties, amount,
/// deadline and description given. Every other escrow, the owner, the rate and
/// the fees stay as they are, and the value in custody grows by the deposit.
pub proof fn law_create_adds_funded_escrow(
    s: LedgerView,
    freelancer: Address,
    deadline: nat,
    description: Seq<char>,
    funding_amount: nat,
    caller: Address,
    now: nat,
)
    requires
        s.create_error(freelancer, deadline, funding_amount, caller, now) is None,
    ensures
        ({
            let after = s.after_create(
                freelancer,
                deadline,
                description,
                funding_amount,
                caller,
                now,
            );
            let id = s.counter() + 1;
            &&& after.counter() == s.counter() + 1
            &&& after.has(id)
            &&& after.escrow(id).status == EscrowStatus::Funded
            &&& after.escrow(id).created_at == now
            &&& after.escrow(id).client == caller
            &&& after.escrow(id).freelancer == freelancer
            &&& after.escrow(id).amount == funding_amount
            &&& after.escrow(id).deadline == deadline
            &&& after.escrow(id).description == description
            &&& forall|k: nat| s.has(k) ==> after.has(k) && after.escrow(k) == s.escrow(k)
            &&& after.owner == s.owner
            &&& after.platform_fee == s.platform_fee
            &&& after.collected_fees == s.collected_fees
            &&& after.custody() == s.custody() + funding_amount
        }),
{
    lemma_held_total_push(
        s.escrows,
        LedgerView::new_escrow(freelancer, deadline, description, funding_amount, caller, now),
    );
}

/// A creation is refused for a zero amount, for a freelancer who is the
/// client, and for a deadline that is not after the current time, each under
/// a fault of its own, and for nothing else.
pub proof fn law_create_refusals(
    s: LedgerView,
    freelancer: Address,
    deadline: nat,
    funding_amount: nat,
    caller: Address,
    now: nat,
)
    ensures
        ({
            let refusal = s.create_error(freelancer, deadline, funding_amount, caller, now);
            &&& funding_amount == 0 ==> refusal == Some(
                EscrowError::InvalidInput(InputFault::ZeroAmount),
            )
            &&& funding_amount != 0 && freelancer == caller ==> refusal == Some(
                EscrowError::InvalidInput(InputFault::SameParty),
            )
            &&& funding_amount != 0 && freelancer != caller && deadline <= now ==> refusal == Some(
                EscrowError::InvalidInput(InputFault::DeadlineNotFuture),
            )
            &&& refusal is None <==> funding_amount > 0 && freelancer != caller && deadline > now
        }),
{
}

/// Whatever is attempted, an escrow stays, keeps its parties, amount,
/// deadline, description and time of creation, and either keeps its status or
/// takes one of the steps funded to completed, funded to disputed, disputed
/// to refunded.
pub proof fn law_status_steps(s: LedgerView, action: Action, id: nat)
    requires
        s.has(id),
    ensures
        s.attempt(action).has(id),
        s.attempt(action).escrow(id) == s.escrow(id).with_status(
            s.attempt(action).escrow(id).status,
        ),
        s.attempt(action).escrow(id).status == s.escrow(id).status || s.escrow(
            id,
        ).status.can_become(s.attempt(action).escrow(id).status),
{
}

/// Over any sequence of attempts an escrow stays what it is but for its
/// status, which only moves forward along funded, completed or funded,
/// disputed, refunded: a completed or refunded escrow never changes again,
/// and a disputed one never becomes funded or completed.
pub proof fn law_status_paths(s: LedgerView, actions: Seq<Action>, id: nat)
    requires
        s.has(id),
    ensures
        s.run(actions).has(id),
        s.run(actions).escrow(id) == s.escrow(id).with_status(s.run(actions).escrow(id).status),
        s.run(actions).escrow(id).status == s.escrow(id).status || s.escrow(id).status.leads_to(
            s.run(actions).escrow(id).status,
        ),
    decreases actions.len(),
{
    if actions.len() > 0 {
        law_status_paths(s, actions.drop_last(), id);
        law_status_steps(s.run(actions.drop_last()), actions.last(), id);
    }
}

/// An operation on an escrow that is not in the status it asks for is
/// refused as `InvalidState` when nothing else is wrong, and a refused
/// attempt leaves the ledger as it was.
pub proof fn law_wrong_status_refused(s: LedgerView, id: nat, caller: Address, now: nat)
    requires
        s.has(id),
    ensures
        s.escrow(id).status != EscrowStatus::Funded && caller == s.escrow(id).client
            ==> s.release_error(id, caller) == Some(EscrowError::InvalidState),
        s.escrow(id).status != EscrowStatus::Funded ==> s.auto_release_error(id, now) == Some(
            EscrowError::InvalidState,
        ),
        s.escrow(id).status != EscrowStatus::Funded && (caller == s.escrow(id).client || caller
            == s.escrow(id).freelancer) ==> s.dispute_error(id, caller) == Some(
            EscrowError::InvalidState,
        ),
        s.escrow(id).status != EscrowStatus::Disputed && caller == s.owner ==> s.refund_error(
            id,
            caller,
        ) == Some(EscrowError::InvalidState),
        forall|action: Action| s.refusal(action) is Some ==> s.attempt(action) == s,
{
}

/// Paying a funded escrow out, at the client's call or after the deadline,
/// splits the deposit exactly into the platform fee and the payout, with the
/// fee the deposit times the rate over ten thousand, rounded down, and less
/// than the deposit. The fees grow by just that fee, and the value in custody
/// falls by just the payout. After it the escrow is completed, so a second
/// release is refused as `InvalidState` and counts nothing twice.
pub proof fn law_release_accounting(s: LedgerView, id: nat, now: nat)
    requires
        s.wf(),
        s.has(id),
        s.escrow(id).status == EscrowStatus::Funded,
    ensures
        ({
            let t = s.release_transfer(id);
            let after = s.after_release(id);
            &&& t.fee + t.amount == s.escrow(id).amount
            &&& t.fee == s.escrow(id).amount * s.platform_fee / 10000
            &&& t.fee < s.escrow(id).amount
            &&& t.recipient == s.escrow(id).freelancer
            &&& after.collected_fees == s.collected_fees + t.fee
            &&& after.custody() + t.amount == s.custody()
            &&& after.wf()
            &&& after.escrow(id).status == EscrowStatus::Completed
            &&& after.release_error(id, s.escrow(id).client) == Some(EscrowError::InvalidState)
            &&& after.auto_release_error(id, now) == Some(EscrowError::InvalidState)
            &&& after.attempt(Action::Release { id, caller: s.escrow(id).client }) == after
            &&& after.attempt(Action::AutoRelease { id, now }) == after
        }),
{
    let after = s.after_release(id);
    lemma_platform_fee_below(s.escrow(id).amount, s.platform_fee);
    lemma_held_total_update(
        s.escrows,
        id - 1,
        s.escrow(id).with_status(EscrowStatus::Completed),
    );
    assert forall|i: int| 0 <= i < after.escrows.len() implies (#[trigger] after.escrows[i]).wf() by {
        assert(s.escrows[i].wf());
    }
}

/// Refunding a disputed escrow splits the deposit exactly into the
/// processing fee and the refund, with the fee one hundredth of the deposit,
/// rounded down. The fees grow by just that fee, and the value in custody falls
/// by just the refund. After it the escrow is refunded, so a second refund is
/// refused as `InvalidState`.
pub proof fn law_refund_accounting(s: LedgerView, id: nat)
    requires
        s.wf(),
        s.has(id),
        s.escrow(id).status == EscrowStatus::Disputed,
    ensures
        ({
            let t = s.refund_transfer(id);
            let after = s.after_refund(id);
            &&& t.fee + t.amount == s.escrow(id).amount
            &&& t.fee == s.escrow(id).amount / 100
            &&& t.fee < s.escrow(id).amount
            &&& t.recipient == s.escrow(id).client
            &&& after.collected_fees == s.collected_fees + t.fee
            &&& after.custody() + t.amount == s.custody()
            &&& after.wf()
            &&& after.escrow(id).status == EscrowStatus::Refunded
            &&& after.refund_error(id, s.owner) == Some(EscrowError::InvalidState)
            &&& after.attempt(Action::Refund { id, caller: s.owner }) == after
        }),
{
    let after = s.after_refund(id);
    lemma_processing_fee_below(s.escrow(id).amount);
    lemma_held_total_update(s.escrows, id - 1, s.escrow(id).with_status(EscrowStatus::Refunded));
    assert forall|i: int| 0 <= i < after.escrows.len() implies (#[trigger] after.escrows[i]).wf() by {
        assert(s.escrows[i].wf());
    }
}

/// A dispute moves no value: the fees and the value in custody stay what they
/// were, and only the status of the disputed escrow changes.
pub proof fn law_dispute_moves_nothing(s: LedgerView, id: nat, caller: Address)
    requires
        s.dispute_error(id, caller) is None,
    ensures
        s.after_dispute(id).collected_fees == s.collected_fees,
        s.after_dispute(id).custody() == s.custody(),
        s.after_dispute(id).escrow(id) == s.escrow(id).with_status(EscrowStatus::Disputed),
        forall|k: nat| s.has(k) && k != id ==> s.after_dispute(id).escrow(k) == s.escrow(k),
{
    lemma_held_total_update(s.escrows, id - 1, s.escrow(id).with_status(EscrowStatus::Disputed));
}

/// A funded escrow is released by deadline exactly when the current time is
/// after the deadline, whoever asks: at or before the deadline the attempt is
/// refused as `DeadlineNotPassed`.
pub proof fn law_auto_release_deadline(s: LedgerView, id: nat, now: nat)
    requires
        s.has(id),
        s.escrow(id).status == EscrowStatus::Funded,
    ensures
        now <= s.escrow(id).deadline ==> s.auto_release_error(id, now) == Some(
            EscrowError::DeadlineNotPassed,
        ),
        now > s.escrow(id).deadline ==> s.auto_release_error(id, now) is None,
{
}

/// A withdrawal that goes through leaves no fees and asks for all of them to
/// go to the owner. If that transfer is not carried out, undoing the
/// withdrawal gives back the very ledger from before it, with its fees.
pub proof fn law_withdrawal_is_atomic(s: LedgerView, caller: Address)
    requires
        s.wf(),
        s.withdraw_error(caller) is None,
    ensures
        ({
            let t = s.withdraw_transfer();
            let after = s.after_withdraw();
            &&& t.amount == s.collected_fees
            &&& t.recipient == s.owner
            &&& after.collected_fees == 0
            &&& after.custody() + t.amount == s.custody()
            &&& after.wf()
            &&& after.owes(t)
            &&& after.after_failed(t) == s
            &&& after.after_failed(t).collected_fees == s.collected_fees
        }),
{
}

/// If the transfer of a release is not carried out, undoing the release
/// gives back the very ledger from before it.
pub proof fn law_release_is_atomic(s: LedgerView, id: nat)
    requires
        s.wf(),
        s.has(id),
        s.escrow(id).status == EscrowStatus::Funded,
    ensures
        s.after_release(id).owes(s.release_transfer(id)),
        s.after_release(id).after_failed(s.release_transfer(id)) == s,
{
    let after = s.after_release(id);
    let t = s.release_transfer(id);
    lemma_platform_fee_below(s.escrow(id).amount, s.platform_fee);
    lemma_held_total_update(
        s.escrows,
        id - 1,
        s.escrow(id).with_status(EscrowStatus::Completed),
    );
    assert(after.after_failed(t).escrows =~= s.escrows);
}

/// If the transfer of a refund is not carried out, undoing the refund gives
/// back the very ledger from before it.
pub proof fn law_refund_is_atomic(s: LedgerView, id: nat)
    requires
        s.wf(),
        s.has(id),
        s.escrow(id).status == EscrowStatus::Disputed,
    ensures
        s.after_refund(id).owes(s.refund_transfer(id)),
        s.after_refund(id).after_failed(s.refund_transfer(id)) == s,
{
    let after = s.after_refund(id);
    let t = s.refund_transfer(id);
    lemma_processing_fee_below(s.escrow(id).amount);
    lemma_held_total_update(s.escrows, id - 1, s.escrow(id).with_status(EscrowStatus::Refunded));
    assert(after.after_failed(t).escrows =~= s.escrows);
}

/// Only the owner is let through to a refund, to the fees and to their
/// withdrawal, whatever the state of the ledger and of the escrow.
pub proof fn law_owner_only(s: LedgerView, id: nat, caller: Address)
    requires
        caller != s.owner,
    ensures
        s.refund_error(id, caller) == Some(EscrowError::Unauthorized),
        s.fees_error(caller) == Some(EscrowError::Unauthorized),
        s.withdraw_error(caller) == Some(EscrowError::Unauthorized),
{
}

/// An identifier that is zero, or above the number of escrows created, names
/// no escrow: release, release by deadline and dispute are refused as
/// `NotFound`, and so is a refund that the owner asks for.
pub proof fn law_unknown_identifier(s: LedgerView, id: nat, caller: Address, now: nat)
    requires
        id == 0 || id > s.counter(),
    ensures
        !s.has(id),
        s.release_error(id, caller) == Some(EscrowError::NotFound),
        s.auto_release_error(id, now) == Some(EscrowError::NotFound),
        s.dispute_error(id, caller) == Some(EscrowError::NotFound),
        caller == s.owner ==> s.refund_error(id, caller) == Some(EscrowError::NotFound),
{
}

/// Once a ledger is initialized, nothing that is attempted on it changes its
/// owner or its fee rate, and no attempt ever takes an escrow away: the number
/// of escrows only grows.
pub proof fn law_configuration_is_fixed(s: LedgerView, actions: Seq<Action>)
    ensures
        s.run(actions).counter() >= s.counter(),
        s.initialized ==> s.run(actions).initialized,
        s.initialized ==> s.run(actions).owner == s.owner,
        s.initialized ==> s.run(actions).platform_fee == s.platform_fee,
    decreases actions.len(),
{
    if actions.len() > 0 {
        law_configuration_is_fixed(s, actions.drop_last());
    }
}

/// Whatever is attempted on a well-formed ledger leaves it well formed,
/// provided that a deposit taken in fits with the value already in custody.
pub proof fn law_attempt_keeps_wf(s: LedgerView, action: Action)
    requires
        s.wf(),
        action matches Action::Init { platform_fee, .. } ==> platform_fee < bps_denominator(),
        action matches Action::Create { funding_amount, deadline, .. } ==> s.custody()
            + funding_amount <= u256_max() && deadline <= u256_max(),
    ensures
        s.attempt(action).wf(),
{
    let after = s.attempt(action);
    if s.refusal(action) is None {
        match action {
            Action::Init { platform_fee, caller } => {
                assert(after.escrows =~= s.escrows);
            },
            Action::Create { freelancer, deadline, description, funding_amount, caller, now } => {
                let e = LedgerView::new_escrow(
                    freelancer,
                    deadline,
                    description,
                    funding_amount,
                    caller,
                    now,
                );
                lemma_held_total_push(s.escrows, e);
                assert forall|i: int| 0 <= i < after.escrows.len() implies (
                #[trigger] after.escrows[i]).wf() by {
                    if i < s.escrows.len() {
                        assert(s.escrows[i].wf());
                    }
                }
            },
            Action::Release { id, caller } => {
                law_release_accounting(s, id, 0);
            },
            Action::AutoRelease { id, now } => {
                law_release_accounting(s, id, now);
            },
            Action::Refund { id, caller } => {
                law_refund_accounting(s, id);
            },
            Action::Dispute { id, caller } => {
                lemma_held_total_update(
                    s.escrows,
                    id - 1,
                    s.escrow(id).with_status(EscrowStatus::Disputed),
                );
                assert forall|i: int| 0 <= i < after.escrows.len() implies (
                #[trigger] after.escrows[i]).wf() by {
                    assert(s.escrows[i].wf());
                }
            },
            Action::Withdraw { caller } => {},
        }
    }
}

} // verus!
