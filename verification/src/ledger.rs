//! The escrow ledger: the records, the configuration, and the operations on them.
//!
//! An operation that moves value changes the ledger first and hands back the
//! [`Transfer`] for the custodian to carry out. The caller reports the outcome
//! to [`FreelanceEscrow::settle`], which undoes the operation if the transfer
//! was not carried out.

use crate::address::Address;
use crate::fees::{platform_fee, processing_fee};
use crate::model::{
    bps_denominator, held_total, lemma_held_total_prefix, lemma_held_total_push,
    lemma_held_total_update, lemma_held_within_total, platform_fee_on, processing_fee_on,
    EscrowView, LedgerView,
};
use crate::types::{EscrowError, EscrowStatus, Event, InputFault, Purpose, Transfer};
use crate::uint::{u256_max, U256};
use vstd::prelude::*;

verus! {

/// One escrow as the ledger stores it.
pub struct EscrowData {
    /// Who deposited the amount.
    pub client: Address,
    /// Who is paid when the escrow is released.
    pub freelancer: Address,
    /// The deposit, in the smallest unit of the currency.
    pub amount: U256,
    /// The time after which anyone may release the escrow.
    pub deadline: U256,
    /// Where the escrow stands.
    pub status: EscrowStatus,
    /// A label that the ledger stores and never reads.
    pub description: String,
    /// The time at which the escrow was created.
    pub created_at: U256,
}

impl View for EscrowData {
    type V = EscrowView;

    open spec fn view(&self) -> EscrowView {
        EscrowView {
            client: self.client,
            freelancer: self.freelancer,
            amount: self.amount@,
            deadline: self.deadline@,
            status: self.status,
            description: self.description@,
            created_at: self.created_at@,
        }
    }
}

/// The ledger that a stored state stands for.
pub open spec fn snapshot_view(
    initialized: bool,
    owner: Address,
    platform_fee: U256,
    collected_fees: U256,
    escrows: Seq<EscrowData>,
) -> LedgerView {
    LedgerView {
        initialized,
        owner,
        platform_fee: platform_fee@,
        collected_fees: collected_fees@,
        escrows: Seq::new(escrows.len(), |i: int| escrows[i]@),
    }
}

/// The ledger: who arbitrates, at what rate fees are taken, the fees accrued,
/// and every escrow ever created.
pub struct FreelanceEscrow {
    initialized: bool,
    owner: Address,
    escrows: Vec<EscrowData>,
    platform_fee: U256,
    collected_fees: U256,
    /// The value in custody, kept up to date with every operation.
    held: U256,
}

impl View for FreelanceEscrow {
    type V = LedgerView;

    closed spec fn view(&self) -> LedgerView {
        snapshot_view(
            self.initialized,
            self.owner,
            self.platform_fee,
            self.collected_fees,
            self.escrows@,
        )
    }
}

/// Lets `caller` through if it is one of the identities `allowed`, and answers
/// `Unauthorized` if it is not.
pub fn authorize(caller: Address, allowed: &[Address]) -> (r: Result<(), EscrowError>)
    ensures
        r is Ok <==> allowed@.contains(caller),
        r is Err ==> r == Err::<(), EscrowError>(EscrowError::Unauthorized),
{
    let mut i: usize = 0;
    while i < allowed.len()
        invariant
            i <= allowed.len(),
            forall|k: int| 0 <= k < i ==> allowed@[k] != caller,
        decreases allowed.len() - i,
    {
        if allowed[i] == caller {
            return Ok(());
        }
        i += 1;
    }
    Err(EscrowError::Unauthorized)
}

/// Whether the deposit of an escrow in `status` is still in custody.
fn holds_deposit(status: EscrowStatus) -> (r: bool)
    ensures
        r == status.holds_deposit(),
{
    match status {
        EscrowStatus::Funded => true,
        EscrowStatus::Disputed => true,
        EscrowStatus::Completed => false,
        EscrowStatus::Refunded => false,
    }
}

impl FreelanceEscrow {
    /// What every operation keeps: the ledger is well formed, and the running
    /// total of the value in custody is right.
    pub closed spec fn wf(&self) -> bool {
        &&& self@.wf()
        &&& self.held@ == self@.custody()
    }

    /// A well-formed ledger is well formed as a mathematical object too.
    pub proof fn lemma_wf(&self)
        requires
            self.wf(),
        ensures
            self@.wf(),
    {
    }

    /// A ledger has no more escrows than a machine can count.
    proof fn lemma_count_bounded(&self)
        ensures
            self@.counter() <= usize::MAX,
    {
        assert(self.escrows.len() == self.escrows@.len());
    }

    /// The ledger that a stored state stands for, if the state is one that a
    /// ledger can be in: a rate below the whole, records with a deposit, two
    /// parties and a deadline after their creation, and a value in custody
    /// that fits in 256 bits.
    pub fn restore(
        initialized: bool,
        owner: Address,
        platform_fee: U256,
        collected_fees: U256,
        escrows: Vec<EscrowData>,
    ) -> (r: Option<FreelanceEscrow>)
        ensures
            match r {
                Some(ledger) => {
                    &&& ledger.wf()
                    &&& ledger@ == snapshot_view(
                        initialized,
                        owner,
                        platform_fee,
                        collected_fees,
                        escrows@,
                    )
                },
                None => !snapshot_view(
                    initialized,
                    owner,
                    platform_fee,
                    collected_fees,
                    escrows@,
                ).wf(),
            },
    {
        let ghost view = snapshot_view(initialized, owner, platform_fee, collected_fees, escrows@);
        if !platform_fee.lt(&U256::from_u64(10000)) {
            return None;
        }
        let limit = U256::max_value();
        let mut held = collected_fees;
        let mut i: usize = 0;
        while i < escrows.len()
            invariant
                i <= escrows.len(),
                view == snapshot_view(initialized, owner, platform_fee, collected_fees, escrows@),
                limit@ == u256_max(),
                held@ == collected_fees@ + held_total(view.escrows.take(i as int)),
                forall|k: int| 0 <= k < i ==> (#[trigger] view.escrows[k]).wf(),
            decreases escrows.len() - i,
        {
            let escrow = &escrows[i];
            proof {
                escrow.amount.lemma_bounded();
                escrow.deadline.lemma_bounded();
                held.lemma_bounded();
                lemma_held_total_prefix(view.escrows, i as int + 1);
                assert(view.escrows.take(i as int + 1).drop_last() =~= view.escrows.take(i as int));
            }
            if escrow.amount.is_zero() || escrow.client == escrow.freelancer
                || !escrow.created_at.lt(&escrow.deadline) {
                assert(!view.escrows[i as int].wf());
                return None;
            }
            if holds_deposit(escrow.status) {
                let room = limit.minus(&held);
                if !escrow.amount.le(&room) {
                    return None;
                }
                held = held.plus(&escrow.amount);
            }
            i += 1;
        }
        proof {
            assert(view.escrows.take(i as int) =~= view.escrows);
        }
        Some(FreelanceEscrow { initialized, owner, escrows, platform_fee, collected_fees, held })
    }

    /// A ledger to which nothing has happened: no owner but the zero
    /// identity, no fee rate, no fees, no escrows.
    pub fn new() -> (r: FreelanceEscrow)
        ensures
            r.wf(),
            r@ == LedgerView::fresh(r@.owner),
            r@.owner.is_zero(),
    {
        let r = FreelanceEscrow {
            initialized: false,
            owner: Address::zero(),
            escrows: Vec::new(),
            platform_fee: U256::zero(),
            collected_fees: U256::zero(),
            held: U256::zero(),
        };
        assert(r@.escrows =~= Seq::empty());
        r
    }

    /// Whether `escrow_id` identifies an escrow.
    fn escrow_exists(&self, escrow_id: &U256) -> (r: bool)
        ensures
            r == self@.has(escrow_id@),
    {
        !escrow_id.is_zero() && escrow_id.le(&U256::from_usize(self.escrows.len()))
    }

    /// Where the escrow `escrow_id` is stored.
    fn slot(&self, escrow_id: &U256) -> (i: usize)
        requires
            self@.has(escrow_id@),
        ensures
            i == escrow_id@ - 1,
            i < self.escrows@.len(),
    {
        proof {
            self.lemma_count_bounded();
        }
        match escrow_id.to_usize() {
            Some(k) => k - 1,
            None => 0,
        }
    }

    /// Pays the funded escrow `escrow_id` out: accrues the platform fee, marks
    /// the escrow completed, and asks for the rest to go to the freelancer.
    fn pay_out(&mut self, escrow_id: U256) -> (t: Transfer)
        requires
            old(self).wf(),
            old(self)@.has(escrow_id@),
            old(self)@.escrow(escrow_id@).status == EscrowStatus::Funded,
        ensures
            final(self).wf(),
            final(self)@ == old(self)@.after_release(escrow_id@),
            t@ == old(self)@.release_transfer(escrow_id@),
            t@.fee + t@.amount == old(self)@.escrow(escrow_id@).amount,
            final(self)@.owes(t@),
    {
        let i = self.slot(&escrow_id);
        let amount = self.escrows[i].amount;
        let freelancer = self.escrows[i].freelancer;
        let fee = platform_fee(&amount, &self.platform_fee);
        let payout = amount.minus(&fee);
        proof {
            lemma_held_within_total(self@.escrows, i as int);
            lemma_held_total_update(
                self@.escrows,
                i as int,
                self@.escrows[i as int].with_status(EscrowStatus::Completed),
            );
        }
        self.collected_fees = self.collected_fees.plus(&fee);
        self.held = self.held.minus(&payout);
        self.escrows[i].status = EscrowStatus::Completed;
        proof {
            assert(self@.escrows =~= old(self)@.after_release(escrow_id@).escrows);
        }
        Transfer { purpose: Purpose::Release, escrow_id, recipient: freelancer, amount: payout, fee }
    }

    /// Releases the deposit of a funded escrow to its freelancer, at the
    /// client's call.
    ///
    /// On success the ledger has accrued the platform fee and the escrow is
    /// completed; the transfer returned pays the rest to the freelancer, and
    /// its outcome is owed to [`settle`](Self::settle). On refusal nothing changes.
    pub fn release_funds(&mut self, escrow_id: U256, caller: Address) -> (r: Result<
        Transfer,
        EscrowError,
    >)
        requires
            old(self).wf(),
        ensures
            final(self).wf(),
            match r {
                Ok(t) => {
                    &&& old(self)@.release_error(escrow_id@, caller) is None
                    &&& final(self)@ == old(self)@.after_release(escrow_id@)
                    &&& t@ == old(self)@.release_transfer(escrow_id@)
                    &&& t@.fee + t@.amount == old(self)@.escrow(escrow_id@).amount
                    &&& t@.fee == platform_fee_on(
                        old(self)@.escrow(escrow_id@).amount,
                        old(self)@.platform_fee,
                    )
                    &&& final(self)@.collected_fees == old(self)@.collected_fees + t@.fee
                    &&& final(self)@.escrow(escrow_id@).status == EscrowStatus::Completed
                    &&& final(self)@.owes(t@)
                },
                Err(e) => {
                    &&& old(self)@.release_error(escrow_id@, caller) == Some(e)
                    &&& final(self)@ == old(self)@
                },
            },
    {
        if !self.escrow_exists(&escrow_id) {
            return Err(EscrowError::NotFound);
        }
        let i = self.slot(&escrow_id);
        if authorize(caller, &[self.escrows[i].client]).is_err() {
            return Err(EscrowError::Unauthorized);
        }
        if self.escrows[i].status != EscrowStatus::Funded {
            return Err(EscrowError::InvalidState);
        }
        Ok(self.pay_out(escrow_id))
    }

    /// Releases the deposit of a funded escrow to its freelancer once the
    /// deadline has passed, at anyone's call.
    ///
    /// The effect is that of [`release_funds`](Self::release_funds).
    pub fn auto_release(&mut self, escrow_id: U256, _caller: Address, now: U256) -> (r: Result<
        Transfer,
        EscrowError,
    >)
        requires
            old(self).wf(),
        ensures
            final(self).wf(),
            match r {
                Ok(t) => {
                    &&& old(self)@.auto_release_error(escrow_id@, now@) is None
                    &&& final(self)@ == old(self)@.after_release(escrow_id@)
                    &&& t@ == old(self)@.release_transfer(escrow_id@)
                    &&& t@.fee + t@.amount == old(self)@.escrow(escrow_id@).amount
                    &&& t@.fee == platform_fee_on(
                        old(self)@.escrow(escrow_id@).amount,
                        old(self)@.platform_fee,
                    )
                    &&& final(self)@.collected_fees == old(self)@.collected_fees + t@.fee
                    &&& final(self)@.escrow(escrow_id@).status == EscrowStatus::Completed
                    &&& final(self)@.owes(t@)
                },
                Err(e) => {
                    &&& old(self)@.auto_release_error(escrow_id@, now@) == Some(e)
                    &&& final(self)@ == old(self)@
                },
            },
    {
        if !self.escrow_exists(&escrow_id) {
            return Err(EscrowError::NotFound);
        }
        let i = self.slot(&escrow_id);
        if self.escrows[i].status != EscrowStatus::Funded {
            return Err(EscrowError::InvalidState);
        }
        if now.le(&self.escrows[i].deadline) {
            return Err(EscrowError::DeadlineNotPassed);
        }
        Ok(self.pay_out(escrow_id))
    }

    /// Sets the owner and the fee rate, once.
    ///
    /// The caller becomes the owner. The rate is in basis points and below
    /// ten thousand. A ledger that has its owner already refuses and keeps it.
    pub fn init(&mut self, platform_fee: U256, caller: Address) -> (r: Result<(), EscrowError>)
        requires
            old(self).wf(),
            platform_fee@ < bps_denominator(),
        ensures
            final(self).wf(),
            match r {
                Ok(_) => {
                    &&& old(self)@.init_error() is None
                    &&& final(self)@ == old(self)@.after_init(platform_fee@, caller)
                },
                Err(e) => {
                    &&& old(self)@.init_error() == Some(e)
                    &&& final(self)@ == old(self)@
                },
            },
    {
        if self.initialized {
            return Err(EscrowError::AlreadyInitialized);
        }
        self.initialized = true;
        self.owner = caller;
        self.platform_fee = platform_fee;
        proof {
            assert(self@.escrows =~= old(self)@.escrows);
        }
        Ok(())
    }

    /// Whether the custodian can hold `funding_amount` on top of what it
    /// holds for this ledger, which [`create_escrow`](Self::create_escrow)
    /// relies on.
    pub fn can_accept(&self, funding_amount: &U256) -> (r: bool)
        requires
            self.wf(),
        ensures
            r == (self@.custody() + funding_amount@ <= u256_max()),
    {
        let room = U256::max_value().minus(&self.held);
        funding_amount.le(&room)
    }

    /// Creates an escrow and funds it with `funding_amount`, which the
    /// custodian has received from `caller`, the client.
    ///
    /// The new escrow gets the next identifier, is funded, and records `now`
    /// as its time of creation. A zero amount, a freelancer who is the client,
    /// and a deadline not after `now` are refused, in this order.
    pub fn create_escrow(
        &mut self,
        freelancer: Address,
        deadline: U256,
        description: String,
        funding_amount: U256,
        caller: Address,
        now: U256,
    ) -> (r: Result<(U256, Event), EscrowError>)
        requires
            old(self).wf(),
            old(self)@.create_error(freelancer, deadline@, funding_amount@, caller, now@) is None
                ==> old(self)@.custody() + funding_amount@ <= u256_max(),
        ensures
            final(self).wf(),
            match r {
                Ok((id, event)) => {
                    &&& old(self)@.create_error(
                        freelancer,
                        deadline@,
                        funding_amount@,
                        caller,
                        now@,
                    ) is None
                    &&& final(self)@ == old(self)@.after_create(
                        freelancer,
                        deadline@,
                        description@,
                        funding_amount@,
                        caller,
                        now@,
                    )
                    &&& id@ == old(self)@.counter() + 1
                    &&& event@ == old(self)@.create_event(freelancer, funding_amount@, caller)
                    &&& final(self)@.counter() == old(self)@.counter() + 1
                    &&& final(self)@.escrow(id@).status == EscrowStatus::Funded
                    &&& final(self)@.escrow(id@).created_at == now@
                },
                Err(e) => {
                    &&& old(self)@.create_error(
                        freelancer,
                        deadline@,
                        funding_amount@,
                        caller,
                        now@,
                    ) == Some(e)
                    &&& final(self)@ == old(self)@
                },
            },
    {
        if funding_amount.is_zero() {
            return Err(EscrowError::InvalidInput(InputFault::ZeroAmount));
        }
        if freelancer == caller {
            return Err(EscrowError::InvalidInput(InputFault::SameParty));
        }
        if deadline.le(&now) {
            return Err(EscrowError::InvalidInput(InputFault::DeadlineNotFuture));
        }
        proof {
            funding_amount.lemma_bounded();
            deadline.lemma_bounded();
            lemma_held_total_push(
                self@.escrows,
                LedgerView::new_escrow(
                    freelancer,
                    deadline@,
                    description@,
                    funding_amount@,
                    caller,
                    now@,
                ),
            );
        }
        self.held = self.held.plus(&funding_amount);
        self.escrows.push(
            EscrowData {
                client: caller,
                freelancer,
                amount: funding_amount,
                deadline,
                status: EscrowStatus::Funded,
                description,
                created_at: now,
            },
        );
        let escrow_id = U256::from_usize(self.escrows.len());
        proof {
            assert(self@.escrows =~= old(self)@.after_create(
                freelancer,
                deadline@,
                description@,
                funding_amount@,
                caller,
                now@,
            ).escrows);
        }
        Ok(
            (
                escrow_id,
                Event::EscrowCreated { escrow_id, client: caller, freelancer, amount: funding_amount },
            ),
        )
    }

    /// Refunds the deposit of a disputed escrow to its client, at the owner's call.
    ///
    /// On success the ledger has accrued the processing fee and the escrow is
    /// refunded; the transfer returned pays the rest to the client, and its
    /// outcome is owed to [`settle`](Self::settle). On refusal nothing changes.
    pub fn refund_client(&mut self, escrow_id: U256, caller: Address) -> (r: Result<
        Transfer,
        EscrowError,
    >)
        requires
            old(self).wf(),
        ensures
            final(self).wf(),
            match r {
                Ok(t) => {
                    &&& old(self)@.refund_error(escrow_id@, caller) is None
                    &&& final(self)@ == old(self)@.after_refund(escrow_id@)
                    &&& t@ == old(self)@.refund_transfer(escrow_id@)
                    &&& t@.fee + t@.amount == old(self)@.escrow(escrow_id@).amount
                    &&& t@.fee == processing_fee_on(old(self)@.escrow(escrow_id@).amount)
                    &&& final(self)@.collected_fees == old(self)@.collected_fees + t@.fee
                    &&& final(self)@.escrow(escrow_id@).status == EscrowStatus::Refunded
                    &&& final(self)@.owes(t@)
                },
                Err(e) => {
                    &&& old(self)@.refund_error(escrow_id@, caller) == Some(e)
                    &&& final(self)@ == old(self)@
                },
            },
    {
        if authorize(caller, &[self.owner]).is_err() {
            return Err(EscrowError::Unauthorized);
        }
        if !self.escrow_exists(&escrow_id) {
            return Err(EscrowError::NotFound);
        }
        let i = self.slot(&escrow_id);
        if self.escrows[i].status != EscrowStatus::Disputed {
            return Err(EscrowError::InvalidState);
        }
        let amount = self.escrows[i].amount;
        let client = self.escrows[i].client;
        let fee = processing_fee(&amount);
        let refund = amount.minus(&fee);
        proof {
            lemma_held_within_total(self@.escrows, i as int);
            lemma_held_total_update(
                self@.escrows,
                i as int,
                self@.escrows[i as int].with_status(EscrowStatus::Refunded),
            );
        }
        self.escrows[i].status = EscrowStatus::Refunded;
        self.collected_fees = self.collected_fees.plus(&fee);
        self.held = self.held.minus(&refund);
        proof {
            assert(self@.escrows =~= old(self)@.after_refund(escrow_id@).escrows);
        }
        Ok(Transfer { purpose: Purpose::Refund, escrow_id, recipient: client, amount: refund, fee })
    }

    /// Puts a funded escrow in dispute, at the call of its client or its freelancer.
    ///
    /// No value moves. On refusal nothing changes.
    pub fn raise_dispute(&mut self, escrow_id: U256, caller: Address) -> (r: Result<
        Event,
        EscrowError,
    >)
        requires
            old(self).wf(),
        ensures
            final(self).wf(),
            match r {
                Ok(event) => {
                    &&& old(self)@.dispute_error(escrow_id@, caller) is None
                    &&& final(self)@ == old(self)@.after_dispute(escrow_id@)
                    &&& final(self)@.escrow(escrow_id@).status == EscrowStatus::Disputed
                    &&& final(self)@.collected_fees == old(self)@.collected_fees
                    &&& event == (Event::DisputeRaised { escrow_id, raiser: caller })
                },
                Err(e) => {
                    &&& old(self)@.dispute_error(escrow_id@, caller) == Some(e)
                    &&& final(self)@ == old(self)@
                },
            },
    {
        if !self.escrow_exists(&escrow_id) {
            return Err(EscrowError::NotFound);
        }
        let i = self.slot(&escrow_id);
        if authorize(caller, &[self.escrows[i].client, self.escrows[i].freelancer]).is_err() {
            return Err(EscrowError::Unauthorized);
        }
        if self.escrows[i].status != EscrowStatus::Funded {
            return Err(EscrowError::InvalidState);
        }
        proof {
            lemma_held_total_update(
                self@.escrows,
                i as int,
                self@.escrows[i as int].with_status(EscrowStatus::Disputed),
            );
        }
        self.escrows[i].status = EscrowStatus::Disputed;
        proof {
            assert(self@.escrows =~= old(self)@.after_dispute(escrow_id@).escrows);
        }
        Ok(Event::DisputeRaised { escrow_id, raiser: caller })
    }

    /// The fields of the escrow `escrow_id`: client, freelancer, amount,
    /// deadline, status, description and time of creation.
    pub fn get_escrow(&self, escrow_id: U256) -> (r: Result<
        (Address, Address, U256, U256, EscrowStatus, String, U256),
        EscrowError,
    >)
        ensures
            match r {
                Ok(fields) => {
                    &&& self@.has(escrow_id@)
                    &&& fields.0 == self@.escrow(escrow_id@).client
                    &&& fields.1 == self@.escrow(escrow_id@).freelancer
                    &&& fields.2@ == self@.escrow(escrow_id@).amount
                    &&& fields.3@ == self@.escrow(escrow_id@).deadline
                    &&& fields.4 == self@.escrow(escrow_id@).status
                    &&& fields.5@ == self@.escrow(escrow_id@).description
                    &&& fields.6@ == self@.escrow(escrow_id@).created_at
                },
                Err(e) => !self@.has(escrow_id@) && e == EscrowError::NotFound,
            },
    {
        if !self.escrow_exists(&escrow_id) {
            return Err(EscrowError::NotFound);
        }
        let i = self.slot(&escrow_id);
        let escrow = &self.escrows[i];
        Ok(
            (
                escrow.client,
                escrow.freelancer,
                escrow.amount,
                escrow.deadline,
                escrow.status,
                escrow.description.clone(),
                escrow.created_at,
            ),
        )
    }

    /// The fee rate, in basis points.
    pub fn get_platform_fee(&self) -> (r: U256)
        ensures
            r@ == self@.platform_fee,
    {
        self.platform_fee
    }

    /// The fees accrued and not yet withdrawn, shown to the owner only.
    pub fn get_collected_fees(&self, caller: Address) -> (r: Result<U256, EscrowError>)
        ensures
            match r {
                Ok(fees) => self@.fees_error(caller) is None && fees@ == self@.collected_fees,
                Err(e) => self@.fees_error(caller) == Some(e),
            },
    {
        if authorize(caller, &[self.owner]).is_err() {
            return Err(EscrowError::Unauthorized);
        }
        Ok(self.collected_fees)
    }

    /// Takes all accrued fees out for the owner, at the owner's call.
    ///
    /// On success the balance of fees is zero; the transfer returned pays what
    /// it was to the owner, and its outcome is owed to
    /// [`settle`](Self::settle). On refusal nothing changes.
    pub fn withdraw_fees(&mut self, caller: Address) -> (r: Result<Transfer, EscrowError>)
        requires
            old(self).wf(),
        ensures
            final(self).wf(),
            match r {
                Ok(t) => {
                    &&& old(self)@.withdraw_error(caller) is None
                    &&& final(self)@ == old(self)@.after_withdraw()
                    &&& t@ == old(self)@.withdraw_transfer()
                    &&& t@.amount == old(self)@.collected_fees
                    &&& final(self)@.collected_fees == 0
                    &&& final(self)@.owes(t@)
                },
                Err(e) => {
                    &&& old(self)@.withdraw_error(caller) == Some(e)
                    &&& final(self)@ == old(self)@
                },
            },
    {
        if authorize(caller, &[self.owner]).is_err() {
            return Err(EscrowError::Unauthorized);
        }
        let fees = self.collected_fees;
        if fees.is_zero() {
            return Err(EscrowError::NoFundsToWithdraw);
        }
        self.collected_fees = U256::zero();
        self.held = self.held.minus(&fees);
        proof {
            assert(self@.escrows =~= old(self)@.escrows);
        }
        Ok(
            Transfer {
                purpose: Purpose::FeeWithdrawal,
                escrow_id: U256::zero(),
                recipient: self.owner,
                amount: fees,
                fee: U256::zero(),
            },
        )
    }

    /// Closes an operation that asked for `transfer`, given whether the
    /// custodian carried it out.
    ///
    /// A transfer carried out leaves the ledger as it is and yields the
    /// notification to publish, if the operation has one. A transfer not
    /// carried out is answered with `TransferFailed`, and the operation is
    /// undone: the escrow is back in the status it had, and the fees are what
    /// they were.
    pub fn settle(&mut self, transfer: Transfer, delivered: bool) -> (r: Result<
        Option<Event>,
        EscrowError,
    >)
        requires
            old(self).wf(),
            !delivered ==> old(self)@.owes(transfer@),
        ensures
            final(self).wf(),
            match r {
                Ok(event) => {
                    &&& delivered
                    &&& final(self)@ == old(self)@
                    &&& match event {
                        Some(ev) => LedgerView::notice(transfer@) == Some(ev@),
                        None => LedgerView::notice(transfer@) is None,
                    }
                },
                Err(e) => {
                    &&& !delivered
                    &&& e == EscrowError::TransferFailed
                    &&& final(self)@ == old(self)@.after_failed(transfer@)
                },
            },
    {
        if delivered {
            return Ok(
                match transfer.purpose {
                    Purpose::Release => Some(
                        Event::FundsReleased {
                            escrow_id: transfer.escrow_id,
                            freelancer: transfer.recipient,
                            amount: transfer.amount,
                        },
                    ),
                    Purpose::Refund => Some(
                        Event::FundsRefunded {
                            escrow_id: transfer.escrow_id,
                            client: transfer.recipient,
                            amount: transfer.amount,
                        },
                    ),
                    Purpose::FeeWithdrawal => None,
                },
            );
        }
        match transfer.purpose {
            Purpose::Release => {
                self.reopen(&transfer.escrow_id, EscrowStatus::Funded, &transfer.fee);
            },
            Purpose::Refund => {
                self.reopen(&transfer.escrow_id, EscrowStatus::Disputed, &transfer.fee);
            },
            Purpose::FeeWithdrawal => {
                self.collected_fees = self.collected_fees.plus(&transfer.amount);
                self.held = self.held.plus(&transfer.amount);
                proof {
                    assert(self@.escrows =~= old(self)@.escrows);
                }
            },
        }
        Err(EscrowError::TransferFailed)
    }

    /// Puts the escrow `escrow_id`, paid out or refunded, back in `status`
    /// and takes `fee` out of the accrued fees again.
    fn reopen(&mut self, escrow_id: &U256, status: EscrowStatus, fee: &U256)
        requires
            old(self).wf(),
            old(self)@.has(escrow_id@),
            !old(self)@.escrow(escrow_id@).status.holds_deposit(),
            status.holds_deposit(),
            fee@ <= old(self)@.collected_fees,
            fee@ <= old(self)@.escrow(escrow_id@).amount,
            old(self)@.custody() + old(self)@.escrow(escrow_id@).amount - fee@ <= u256_max(),
        ensures
            final(self).wf(),
            final(self)@ == old(self)@.with_status(escrow_id@, status).with_fees(
                (old(self)@.collected_fees - fee@) as nat,
            ),
    {
        let i = self.slot(escrow_id);
        let back = self.escrows[i].amount.minus(fee);
        proof {
            lemma_held_total_update(
                self@.escrows,
                i as int,
                self@.escrows[i as int].with_status(status),
            );
        }
        self.collected_fees = self.collected_fees.minus(fee);
        self.held = self.held.plus(&back);
        self.escrows[i].status = status;
        proof {
            assert(self@.escrows =~= old(self)@.with_status(escrow_id@, status).escrows);
        }
    }

    /// The owner: the caller of `init`, or the zero identity before it.
    pub fn get_owner(&self) -> (r: Address)
        ensures
            r == self@.owner,
    {
        self.owner
    }

    /// The number of escrows created so far.
    pub fn get_total_escrows(&self) -> (r: U256)
        ensures
            r@ == self@.counter(),
    {
        U256::from_usize(self.escrows.len())
    }
}

} // verus!
