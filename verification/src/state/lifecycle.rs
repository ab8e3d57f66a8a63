use vstd::prelude::*;
use crate::address::same_address;
use crate::address::Address;
use crate::error::StreamError;
use crate::state::stream::Stream;
use crate::state::stream::DEPOSIT_AMOUNT_PERIOD_IN_SECS;
use crate::utils::flow_between;

verus! {

impl Stream {
    /// The least that a non-prepaid stream must be opened with: the flow of
    /// `DEPOSIT_AMOUNT_PERIOD_IN_SECS` seconds.
    pub open spec fn minimum_deposit(self) -> int {
        flow_between(
            0,
            DEPOSIT_AMOUNT_PERIOD_IN_SECS as int,
            self.flow_interval as int,
            self.flow_rate as int,
        )
    }

    /// The most that may still be put into the escrow: what the recipient can still
    /// earn in the stream's lifetime, less what the escrow already holds.
    pub open spec fn max_acceptable_topup(self) -> int {
        self.lifetime_amount() - self.withdrawn_amount - self.escrowed()
    }

    /// The stream after `amount` has been put into the escrow.
    pub open spec fn after_deposit(self, amount: int) -> Stream {
        Stream { total_deposited: (self.total_deposited + amount) as u64, ..self }
    }

    /// Why a prepaid stream cannot be funded now, if it cannot.
    pub open spec fn initialize_prepaid_refusal(self) -> Option<StreamError> {
        if !self.is_prepaid || !self.is_fresh() {
            Some(StreamError::Unauthorized)
        } else {
            None
        }
    }

    /// Funds a freshly created prepaid stream in full and returns what the sender must
    /// put into the escrow: the lifetime amount.
    ///
    /// Refused with `Unauthorized` if the stream is not prepaid or is no longer fresh.
    pub fn initialize_prepaid(&mut self) -> (r: Result<u64, StreamError>)
        requires
            old(self).wf(),
        ensures
            final(self).wf(),
            match r {
                Ok(amount) => {
                    &&& old(self).initialize_prepaid_refusal() is None
                    &&& amount == old(self).lifetime_amount()
                    &&& *final(self) == old(self).after_deposit(amount as int)
                    &&& final(self).escrowed() == old(self).escrowed() + amount
                },
                Err(e) => {
                    &&& old(self).initialize_prepaid_refusal() == Some(e)
                    &&& *final(self) == *old(self)
                },
            },
    {
        if !self.is_prepaid || !self.is_fresh_record() {
            return Err(StreamError::Unauthorized);
        }
        let amount: u64 = self.lifetime_total();
        self.total_deposited = amount;
        Ok(amount)
    }

    /// Why a non-prepaid stream cannot be opened with `topup_amount`, if it cannot.
    pub open spec fn initialize_non_prepaid_refusal(self, topup_amount: u64) -> Option<
        StreamError,
    > {
        if self.is_prepaid || !self.is_fresh() {
            Some(StreamError::Unauthorized)
        } else if topup_amount < self.minimum_deposit() {
            Some(StreamError::DepositTooLow)
        } else if topup_amount > self.lifetime_amount() {
            Some(StreamError::DepositTooHigh)
        } else {
            None
        }
    }

    /// Opens a freshly created non-prepaid stream with a first deposit.
    ///
    /// Refused with `Unauthorized` if the stream is prepaid or no longer fresh, with
    /// `DepositTooLow` if the deposit is below the minimum deposit, and with
    /// `DepositTooHigh` if it is more than the lifetime amount.
    pub fn initialize_non_prepaid(&mut self, topup_amount: u64) -> (r: Result<(), StreamError>)
        requires
            old(self).wf(),
        ensures
            final(self).wf(),
            match r {
                Ok(_) => {
                    &&& old(self).initialize_non_prepaid_refusal(topup_amount) is None
                    &&& *final(self) == old(self).after_deposit(topup_amount as int)
                    &&& final(self).escrowed() == old(self).escrowed() + topup_amount
                },
                Err(e) => old(self).initialize_non_prepaid_refusal(topup_amount) == Some(e)
                    && *final(self) == *old(self),
            },
    {
        if self.is_prepaid || !self.is_fresh_record() {
            return Err(StreamError::Unauthorized);
        }
        let periods: u64 = DEPOSIT_AMOUNT_PERIOD_IN_SECS / self.flow_interval;
        match periods.checked_mul(self.flow_rate) {
            Some(minimum) => {
                if topup_amount < minimum {
                    return Err(StreamError::DepositTooLow);
                }
            },
            None => {
                return Err(StreamError::DepositTooLow);
            },
        }
        if topup_amount > self.lifetime_total() {
            return Err(StreamError::DepositTooHigh);
        }
        self.total_deposited = topup_amount;
        Ok(())
    }

    /// Why `amount` cannot be added to the escrow, if it cannot.
    pub open spec fn topup_refusal(self, amount: u64) -> Option<StreamError> {
        if self.is_cancelled {
            Some(StreamError::Unauthorized)
        } else if self.is_prepaid || amount > self.max_acceptable_topup() {
            Some(StreamError::ExceedsMaxTopup)
        } else if self.total_deposited + amount > u64::MAX {
            Some(StreamError::ArithmeticOverflow)
        } else {
            None
        }
    }

    /// Adds `topup_amount` to the escrow of a non-prepaid stream.
    ///
    /// Refused with `Unauthorized` on a cancelled stream, with `ExceedsMaxTopup` on a
    /// prepaid stream or when the escrow would hold more than the recipient can still
    /// earn, and with `ArithmeticOverflow` when the total of all deposits would not fit
    /// in 64 bits.
    pub fn topup_non_prepaid(&mut self, topup_amount: u64) -> (r: Result<(), StreamError>)
        requires
            old(self).wf(),
        ensures
            final(self).wf(),
            match r {
                Ok(_) => {
                    &&& old(self).topup_refusal(topup_amount) is None
                    &&& *final(self) == old(self).after_deposit(topup_amount as int)
                    &&& final(self).escrowed() == old(self).escrowed() + topup_amount
                },
                Err(e) => {
                    &&& old(self).topup_refusal(topup_amount) == Some(e)
                    &&& *final(self) == *old(self)
                },
            },
    {
        if self.is_cancelled {
            return Err(StreamError::Unauthorized);
        }
        if self.is_prepaid || topup_amount > self.max_topup() {
            return Err(StreamError::ExceedsMaxTopup);
        }
        match self.total_deposited.checked_add(topup_amount) {
            Some(total) => {
                self.total_deposited = total;
                Ok(())
            },
            None => Err(StreamError::ArithmeticOverflow),
        }
    }

    /// Tells whether nothing has happened to the record since it was created.
    pub fn is_fresh_record(&self) -> (fresh: bool)
        ensures
            fresh == self.is_fresh(),
    {
        !self.is_cancelled && self.paused_at.is_none() && !self.is_paused_by_sender
            && self.total_paused_duration == 0 && self.total_deposited == 0
            && self.withdrawn_amount == 0 && self.refunded_amount == 0
            && self.cleanup_reward_amount == 0
    }

    /// Computes the lifetime amount of a well-formed stream.
    pub fn lifetime_total(&self) -> (total: u64)
        requires
            self.wf(),
        ensures
            total == self.lifetime_amount(),
    {
        let n: u64 = crate::utils::elapsed_intervals(
            self.starts_at,
            self.ends_at,
            self.flow_interval,
        );
        proof {
            vstd::arithmetic::mul::lemma_mul_nonnegative(n as int, self.flow_rate as int);
        }
        self.initial_amount + n * self.flow_rate
    }

    /// Computes the most that may still be put into the escrow.
    pub fn max_topup(&self) -> (amount: u64)
        requires
            self.wf(),
        ensures
            amount == self.max_acceptable_topup(),
    {
        self.lifetime_total() - self.withdrawn_amount - self.escrow_balance()
    }
}

impl Stream {
    /// The caller may change the sender at `now`: the stream is a live non-prepaid
    /// stream, the caller is its sender, and the sender may hand the stream on.
    pub open spec fn may_change_sender(self, caller: Address, now: u64) -> bool {
        &&& !self.is_cancelled
        &&& !self.is_prepaid
        &&& caller == self.sender
        &&& self.sender_can_change_sender.granted(now)
    }

    /// The stream with a new sender.
    pub open spec fn after_change_sender(self, new_sender: Address) -> Stream {
        Stream { sender: new_sender, ..self }
    }

    /// Hands a non-prepaid stream on to a new sender. Only the sender may do so, and
    /// only while the stream grants it; anything else is refused with `Unauthorized`.
    pub fn change_sender_non_prepaid(
        &mut self,
        caller: &Address,
        new_sender: Address,
        now: u64,
    ) -> (r: Result<(), StreamError>)
        requires
            old(self).wf(),
        ensures
            final(self).wf(),
            match r {
                Ok(_) => {
                    &&& old(self).may_change_sender(*caller, now)
                    &&& *final(self) == old(self).after_change_sender(new_sender)
                },
                Err(e) => e == StreamError::Unauthorized && !old(self).may_change_sender(
                    *caller,
                    now,
                ) && *final(self) == *old(self),
            },
    {
        if self.is_cancelled || self.is_prepaid || !same_address(caller, &self.sender)
            || !self.sender_can_change_sender.is_granted(now) {
            return Err(StreamError::Unauthorized);
        }
        self.sender = new_sender;
        Ok(())
    }

    /// The caller may pause the stream at `now`: the stream is a live non-prepaid
    /// stream that is not paused and has not ended, and the caller is the recipient, or
    /// the sender while the stream lets the sender pause.
    pub open spec fn may_pause(self, caller: Address, now: u64) -> bool {
        &&& !self.is_cancelled
        &&& !self.is_prepaid
        &&& self.paused_at is None
        &&& now < self.ends_at
        &&& (caller == self.recipient || (caller == self.sender && self.sender_can_pause.granted(
            now,
        )))
    }

    /// The stream after the caller has paused it at `now`. A pause by anyone but the
    /// recipient is the sender's.
    pub open spec fn after_pause(self, caller: Address, now: u64) -> Stream {
        Stream { paused_at: Some(now), is_paused_by_sender: caller != self.recipient, ..self }
    }

    /// Pauses a non-prepaid stream: from `now` on its clock stands still. Whoever may
    /// not pause is refused with `Unauthorized`.
    pub fn pause_non_prepaid(&mut self, caller: &Address, now: u64) -> (r: Result<
        (),
        StreamError,
    >)
        requires
            old(self).wf(),
        ensures
            final(self).wf(),
            match r {
                Ok(_) => old(self).may_pause(*caller, now) && *final(self) == old(self).after_pause(
                    *caller,
                    now,
                ),
                Err(e) => e == StreamError::Unauthorized && !old(self).may_pause(*caller, now)
                    && *final(self) == *old(self),
            },
    {
        if self.is_cancelled || self.is_prepaid || self.paused_at.is_some() || now
            >= self.ends_at {
            return Err(StreamError::Unauthorized);
        }
        let by_recipient: bool = same_address(caller, &self.recipient);
        if !by_recipient && !(same_address(caller, &self.sender)
            && self.sender_can_pause.is_granted(now)) {
            return Err(StreamError::Unauthorized);
        }
        self.paused_at = Some(now);
        self.is_paused_by_sender = !by_recipient;
        Ok(())
    }

    /// The caller may resume the stream at `now`: the stream is a live non-prepaid
    /// stream that is paused, and the caller is the sender while the stream lets the
    /// sender pause, or the recipient; but the recipient may end a pause of the sender
    /// only while the stream grants that.
    pub open spec fn may_resume(self, caller: Address, now: u64) -> bool {
        &&& !self.is_cancelled
        &&& !self.is_prepaid
        &&& self.paused_at is Some
        &&& {
            ||| caller == self.sender && self.sender_can_pause.granted(now)
            ||| caller == self.recipient && (!self.is_paused_by_sender
                || self.recipient_can_resume_pause_by_sender.granted(now))
        }
    }

    /// The part of the stream's lifetime that lies between `from` and `to`, in seconds.
    pub open spec fn lifetime_between(self, from: u64, to: u64) -> int {
        if self.within_lifetime(to as int) > self.within_lifetime(from as int) {
            self.within_lifetime(to as int) - self.within_lifetime(from as int)
        } else {
            0
        }
    }

    /// The paused time on record after a pause from `paused_at` to `now` has ended.
    /// It never exceeds the lifetime.
    pub open spec fn paused_duration_after(self, paused_at: u64, now: u64) -> int {
        let total = self.total_paused_duration + self.lifetime_between(paused_at, now);
        if total > self.ends_at - self.starts_at {
            self.ends_at - self.starts_at
        } else {
            total
        }
    }

    /// The stream after its pause has ended at `now`.
    pub open spec fn after_resume(self, now: u64) -> Stream {
        Stream {
            paused_at: None,
            is_paused_by_sender: false,
            total_paused_duration: self.paused_duration_after(self.paused_at.unwrap(), now) as u64,
            ..self
        }
    }

    /// Resumes a paused non-prepaid stream: the seconds of its lifetime that the pause
    /// covered are added to the paused time, and the clock runs again. Whoever may not
    /// resume is refused with `Unauthorized`.
    pub fn resume_non_prepaid(&mut self, caller: &Address, now: u64) -> (r: Result<
        (),
        StreamError,
    >)
        requires
            old(self).wf(),
        ensures
            final(self).wf(),
            match r {
                Ok(_) => {
                    &&& old(self).may_resume(*caller, now)
                    &&& *final(self) == old(self).after_resume(now)
                },
                Err(e) => e == StreamError::Unauthorized && !old(self).may_resume(*caller, now)
                    && *final(self) == *old(self),
            },
    {
        if self.is_cancelled || self.is_prepaid {
            return Err(StreamError::Unauthorized);
        }
        let paused_at: u64 = match self.paused_at {
            Some(paused_at) => paused_at,
            None => {
                return Err(StreamError::Unauthorized);
            },
        };
        let by_sender: bool = same_address(caller, &self.sender)
            && self.sender_can_pause.is_granted(now);
        let by_recipient: bool = same_address(caller, &self.recipient) && (
        !self.is_paused_by_sender || self.recipient_can_resume_pause_by_sender.is_granted(now));
        if !by_sender && !by_recipient {
            return Err(StreamError::Unauthorized);
        }
        let from: u64 = self.clamp_to_lifetime(paused_at);
        let to: u64 = self.clamp_to_lifetime(now);
        let covered: u64 = if to > from {
            to - from
        } else {
            0
        };
        let lifetime: u64 = self.ends_at - self.starts_at;
        let room: u64 = lifetime - self.total_paused_duration;
        self.total_paused_duration = if covered > room {
            lifetime
        } else {
            self.total_paused_duration + covered
        };
        self.paused_at = None;
        self.is_paused_by_sender = false;
        Ok(())
    }

    /// Moves a time into the stream's lifetime.
    pub fn clamp_to_lifetime(&self, t: u64) -> (clamped: u64)
        ensures
            clamped == self.within_lifetime(t as int),
    {
        if t < self.starts_at {
            self.starts_at
        } else if t > self.ends_at {
            self.ends_at
        } else {
            t
        }
    }
}

impl Stream {
    /// Pause freeze: a pause within the stream's lifetime sets the accrual back by its
    /// length. After a pause from `paused_at` to `resumed_at`, the recipient has earned
    /// at `at` what they would have earned at `at - (resumed_at - paused_at)` without it.
    pub proof fn lemma_pause_freezes_accrual(
        self,
        caller: Address,
        paused_at: u64,
        resumed_at: u64,
        at: u64,
    )
        requires
            self.wf(),
            self.paused_at is None,
            self.starts_at <= paused_at <= resumed_at <= at <= self.ends_at,
        ensures
            self.after_pause(caller, paused_at).after_resume(resumed_at).accrued(at)
                == self.accrued((at - (resumed_at - paused_at)) as u64),
    {
    }
}

} // verus!
