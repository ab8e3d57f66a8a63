use vstd::prelude::*;
use crate::address::default_address;
use crate::address::is_default_address;
use crate::address::same_address;
use crate::address::zero_address;
use crate::address::Address;
use crate::error::StreamError;
use crate::state::stream::CancelTransferParams;
use crate::state::stream::Stream;
use crate::state::stream::CLEANUP_SHARE_DENOMINATOR;

verus! {

/// The part of `escrow` that goes to a third party who cancels an insolvent stream:
/// `share` hundredths of a percent of it, rounded down; a share above the whole counts
/// as the whole.
pub open spec fn cleanup_share_of(escrow: int, share: u64) -> int {
    if share >= CLEANUP_SHARE_DENOMINATOR {
        escrow
    } else {
        escrow * share / (CLEANUP_SHARE_DENOMINATOR as int)
    }
}

/// Computes a third party's part of the escrow of an insolvent stream.
pub fn cleanup_part(escrow: u64, share: u64) -> (part: u64)
    ensures
        part == cleanup_share_of(escrow as int, share),
        part <= escrow,
{
    if share >= CLEANUP_SHARE_DENOMINATOR {
        escrow
    } else {
        proof {
            lemma_cleanup_share_bounded(escrow as int, share);
        }
        let product: u128 = (escrow as u128) * (share as u128);
        let part: u128 = product / (CLEANUP_SHARE_DENOMINATOR as u128);
        part as u64
    }
}

/// A part of the escrow is never negative and never more than the escrow.
pub proof fn lemma_cleanup_share_bounded(escrow: int, share: u64)
    requires
        0 <= escrow,
    ensures
        0 <= cleanup_share_of(escrow, share) <= escrow,
        share < CLEANUP_SHARE_DENOMINATOR ==> 0 <= escrow * share <= escrow
            * CLEANUP_SHARE_DENOMINATOR,
{
    if share < CLEANUP_SHARE_DENOMINATOR {
        assert(0 <= escrow * share <= escrow * 10_000) by (nonlinear_arith)
            requires
                0 <= escrow,
                0 <= share < 10_000,
        ;
        vstd::arithmetic::div_mod::lemma_div_is_ordered(escrow * share, escrow * 10_000, 10_000);
        vstd::arithmetic::div_mod::lemma_div_is_ordered(0, escrow * share, 10_000);
        vstd::arithmetic::div_mod::lemma_div_multiples_vanish(escrow, 10_000);
        assert(escrow * 10_000 == 10_000 * escrow) by (nonlinear_arith);
    }
}

impl Stream {
    /// Why the caller cannot withdraw for `recipient` at `now`, if they cannot. Of a
    /// live stream whose recipient is named rightly, the recipient may always withdraw,
    /// and anyone else while the stream grants it; only the recipient may name a new
    /// recipient.
    pub open spec fn withdraw_refusal(
        self,
        caller: Address,
        recipient: Address,
        names_new_recipient: bool,
        now: u64,
    ) -> Option<StreamError> {
        if self.is_cancelled {
            Some(StreamError::Unauthorized)
        } else if recipient != self.recipient {
            Some(StreamError::InvalidRecipient)
        } else if caller != self.recipient && !self.anyone_can_withdraw_for_recipient.granted(
            now,
        ) {
            Some(StreamError::Unauthorized)
        } else if caller != self.recipient && names_new_recipient {
            Some(StreamError::Unauthorized)
        } else {
            None
        }
    }

    /// The stream after everything withdrawable at `now` has been paid to the recipient.
    pub open spec fn after_withdraw(self, now: u64) -> Stream {
        Stream {
            withdrawn_amount: (self.withdrawn_amount + self.withdrawable(now)) as u64,
            ..self
        }
    }

    /// The stream with `new_recipient` as its recipient, unless that is the zero address.
    pub open spec fn after_change_recipient(self, new_recipient: Address) -> Stream {
        if new_recipient@ == zero_address() {
            self
        } else {
            Stream { recipient: new_recipient, ..self }
        }
    }

    /// Pays out what the recipient has earned and not yet received, as far as the
    /// escrow covers it, and makes `new_recipient` the recipient unless it is the zero
    /// address. Returns the amount to move from the escrow to `recipient`; zero is a
    /// valid amount.
    ///
    /// Refused with `Unauthorized` on a cancelled stream, with `InvalidRecipient` if
    /// `recipient` is not the stream's recipient, and with `Unauthorized` if the caller
    /// is not the recipient and either the stream does not let others withdraw at `now`
    /// or a new recipient is named.
    pub fn withdraw_and_change_recipient(
        &mut self,
        caller: &Address,
        recipient: Address,
        new_recipient: Address,
        now: u64,
    ) -> (r: Result<u64, StreamError>)
        requires
            old(self).wf(),
        ensures
            final(self).wf(),
            final(self).withdrawn_amount >= old(self).withdrawn_amount,
            match r {
                Ok(amount) => {
                    &&& old(self).withdraw_refusal(
                        *caller,
                        recipient,
                        new_recipient@ != zero_address(),
                        now,
                    ) is None
                    &&& amount == old(self).withdrawable(now)
                    &&& *final(self) == old(self).after_withdraw(now).after_change_recipient(
                        new_recipient,
                    )
                    &&& final(self).escrowed() == old(self).escrowed() - amount
                    &&& final(self).withdrawn_amount <= old(self).withdrawn_amount
                        || final(self).withdrawn_amount <= old(self).accrued(now)
                },
                Err(e) => old(self).withdraw_refusal(
                    *caller,
                    recipient,
                    new_recipient@ != zero_address(),
                    now,
                ) == Some(e) && *final(self) == *old(self),
            },
    {
        if self.is_cancelled {
            return Err(StreamError::Unauthorized);
        }
        if !same_address(&recipient, &self.recipient) {
            return Err(StreamError::InvalidRecipient);
        }
        let by_recipient: bool = same_address(caller, &self.recipient);
        if !by_recipient && !self.anyone_can_withdraw_for_recipient.is_granted(now) {
            return Err(StreamError::Unauthorized);
        }
        let keep_recipient: bool = is_default_address(&new_recipient);
        if !by_recipient && !keep_recipient {
            return Err(StreamError::Unauthorized);
        }
        let amount: u64 = self.withdrawable_at(now);
        self.withdrawn_amount = self.withdrawn_amount + amount;
        if !keep_recipient {
            self.recipient = new_recipient;
        }
        Ok(amount)
    }

    /// Pays out what the recipient has earned and not yet received, as
    /// `withdraw_and_change_recipient` does, and leaves the recipient as it is.
    pub fn withdraw(&mut self, caller: &Address, recipient: Address, now: u64) -> (r: Result<
        u64,
        StreamError,
    >)
        requires
            old(self).wf(),
        ensures
            final(self).wf(),
            final(self).withdrawn_amount >= old(self).withdrawn_amount,
            match r {
                Ok(amount) => {
                    &&& old(self).withdraw_refusal(*caller, recipient, false, now) is None
                    &&& amount == old(self).withdrawable(now)
                    &&& *final(self) == old(self).after_withdraw(now)
                    &&& final(self).escrowed() == old(self).escrowed() - amount
                    &&& final(self).withdrawn_amount <= old(self).withdrawn_amount
                        || final(self).withdrawn_amount <= old(self).accrued(now)
                },
                Err(e) => old(self).withdraw_refusal(*caller, recipient, false, now) == Some(e)
                    && *final(self) == *old(self),
            },
    {
        self.withdraw_and_change_recipient(caller, recipient, default_address(), now)
    }

    /// Computes what can be paid to the recipient at `now`.
    pub fn withdrawable_at(&self, now: u64) -> (amount: u64)
        requires
            self.wf(),
        ensures
            amount == self.withdrawable(now),
    {
        let owed: u64 = self.entitlement_at(now);
        let escrow: u64 = self.escrow_balance();
        if escrow < owed {
            escrow
        } else {
            owed
        }
    }
}

impl Stream {
    /// The sender's unused deposit may be taken out at `now`: the stream is a live
    /// non-prepaid stream whose lifetime is over.
    pub open spec fn may_withdraw_excess(self, now: u64) -> bool {
        !self.is_cancelled && !self.is_prepaid && now >= self.ends_at
    }

    /// What the escrow holds beyond what the recipient has earned and not yet received.
    pub open spec fn excess(self, now: u64) -> int {
        if self.is_insolvent(now) {
            0
        } else {
            self.escrowed() - self.entitlement(now)
        }
    }

    /// The stream after the excess at `now` has been handed back to the sender.
    pub open spec fn after_withdraw_excess(self, now: u64) -> Stream {
        Stream { refunded_amount: (self.refunded_amount + self.excess(now)) as u64, ..self }
    }

    /// Hands the sender's unused deposit back once a non-prepaid stream has ended.
    /// Returns the amount to move from the escrow to the sender; zero when nothing is
    /// left over.
    ///
    /// Refused with `Unauthorized` on a cancelled or prepaid stream and before the
    /// stream's end.
    pub fn withdraw_excess_topup_non_prepaid_ended(&mut self, now: u64) -> (r: Result<
        u64,
        StreamError,
    >)
        requires
            old(self).wf(),
        ensures
            final(self).wf(),
            match r {
                Ok(amount) => {
                    &&& old(self).may_withdraw_excess(now)
                    &&& amount == old(self).excess(now)
                    &&& *final(self) == old(self).after_withdraw_excess(now)
                    &&& final(self).escrowed() == old(self).escrowed() - amount
                    &&& final(self).withdrawable(now) == old(self).withdrawable(now)
                },
                Err(e) => e == StreamError::Unauthorized && !old(self).may_withdraw_excess(now)
                    && *final(self) == *old(self),
            },
    {
        if self.is_cancelled || self.is_prepaid || now < self.ends_at {
            return Err(StreamError::Unauthorized);
        }
        let owed: u64 = self.entitlement_at(now);
        let escrow: u64 = self.escrow_balance();
        let amount: u64 = if escrow < owed {
            0
        } else {
            escrow - owed
        };
        self.refunded_amount = self.refunded_amount + amount;
        Ok(amount)
    }

    /// The caller is neither the sender nor the recipient.
    pub open spec fn is_third_party(self, caller: Address) -> bool {
        caller != self.sender && caller != self.recipient
    }

    /// Why the caller cannot cancel the stream at `now`, if they cannot. A live stream
    /// whose recipient is named rightly can be cancelled by the recipient, by the sender
    /// while the stream grants it, and by anyone once it is insolvent.
    pub open spec fn cancel_refusal(self, caller: Address, recipient: Address, now: u64) -> Option<
        StreamError,
    > {
        if self.is_cancelled {
            Some(StreamError::Unauthorized)
        } else if recipient != self.recipient {
            Some(StreamError::InvalidRecipient)
        } else if !(caller == self.recipient || (caller == self.sender
            && self.sender_can_cancel.granted(now)) || self.is_insolvent(now)) {
            Some(StreamError::Unauthorized)
        } else {
            None
        }
    }

    /// How the escrow is shared out when the caller cancels at `now`.
    ///
    /// While the escrow covers it, the recipient gets what they have earned and not yet
    /// received and the sender gets the rest. Once the stream is insolvent the whole
    /// escrow is the recipient's, but for the part, fixed by `cleanup_share`, that goes
    /// to a third party who cancels.
    pub open spec fn cancel_settlement(
        self,
        caller: Address,
        now: u64,
        cleanup_share: u64,
    ) -> CancelTransferParams {
        if !self.is_insolvent(now) {
            CancelTransferParams {
                transfer_amount_sender: (self.escrowed() - self.entitlement(now)) as u64,
                transfer_amount_signer: 0,
                transfer_amount_recipient: self.entitlement(now) as u64,
            }
        } else if self.is_third_party(caller) {
            CancelTransferParams {
                transfer_amount_sender: 0,
                transfer_amount_signer: cleanup_share_of(self.escrowed(), cleanup_share) as u64,
                transfer_amount_recipient: (self.escrowed() - cleanup_share_of(
                    self.escrowed(),
                    cleanup_share,
                )) as u64,
            }
        } else {
            CancelTransferParams {
                transfer_amount_sender: 0,
                transfer_amount_signer: 0,
                transfer_amount_recipient: self.escrowed() as u64,
            }
        }
    }

    /// The cancelled stream, after `paid` has left the escrow.
    pub open spec fn after_cancel(self, paid: CancelTransferParams) -> Stream {
        Stream {
            is_cancelled: true,
            withdrawn_amount: (self.withdrawn_amount + paid.transfer_amount_recipient) as u64,
            refunded_amount: (self.refunded_amount + paid.transfer_amount_sender) as u64,
            cleanup_reward_amount: (self.cleanup_reward_amount
                + paid.transfer_amount_signer) as u64,
            ..self
        }
    }

    /// Cancels the stream and says how to empty its escrow: how much goes to the
    /// sender, to the caller and to the recipient. `cleanup_share` is the part of the
    /// escrow, in hundredths of a percent, that a third party receives for cancelling
    /// an insolvent stream.
    ///
    /// Refused with `Unauthorized` on a stream that is already cancelled, with
    /// `InvalidRecipient` if `recipient` is not the stream's recipient, and with
    /// `Unauthorized` if the stream is solvent and the caller is neither the recipient
    /// nor a sender whom the stream lets cancel.
    pub fn cancel(
        &mut self,
        caller: &Address,
        recipient: Address,
        now: u64,
        cleanup_share: u64,
    ) -> (r: Result<CancelTransferParams, StreamError>)
        requires
            old(self).wf(),
        ensures
            final(self).wf(),
            match r {
                Ok(paid) => {
                    &&& old(self).cancel_refusal(*caller, recipient, now) is None
                    &&& paid == old(self).cancel_settlement(*caller, now, cleanup_share)
                    &&& *final(self) == old(self).after_cancel(paid)
                    &&& paid.transfer_amount_sender + paid.transfer_amount_signer
                        + paid.transfer_amount_recipient == old(self).escrowed()
                    &&& paid.transfer_amount_recipient + paid.transfer_amount_signer
                        <= old(self).entitlement(now)
                    &&& final(self).escrowed() == 0
                    &&& final(self).is_cancelled
                },
                Err(e) => {
                    &&& old(self).cancel_refusal(*caller, recipient, now) == Some(e)
                    &&& *final(self) == *old(self)
                },
            },
    {
        if self.is_cancelled {
            return Err(StreamError::Unauthorized);
        }
        if !same_address(&recipient, &self.recipient) {
            return Err(StreamError::InvalidRecipient);
        }
        let owed: u64 = self.entitlement_at(now);
        let escrow: u64 = self.escrow_balance();
        let insolvent: bool = escrow < owed;
        let by_recipient: bool = same_address(caller, &self.recipient);
        let by_sender: bool = same_address(caller, &self.sender);
        if !(by_recipient || (by_sender && self.sender_can_cancel.is_granted(now)) || insolvent) {
            return Err(StreamError::Unauthorized);
        }
        let paid = if !insolvent {
            CancelTransferParams {
                transfer_amount_sender: escrow - owed,
                transfer_amount_signer: 0,
                transfer_amount_recipient: owed,
            }
        } else if !by_sender && !by_recipient {
            let reward: u64 = cleanup_part(escrow, cleanup_share);
            CancelTransferParams {
                transfer_amount_sender: 0,
                transfer_amount_signer: reward,
                transfer_amount_recipient: escrow - reward,
            }
        } else {
            CancelTransferParams {
                transfer_amount_sender: 0,
                transfer_amount_signer: 0,
                transfer_amount_recipient: escrow,
            }
        };
        self.is_cancelled = true;
        self.withdrawn_amount = self.withdrawn_amount + paid.transfer_amount_recipient;
        self.refunded_amount = self.refunded_amount + paid.transfer_amount_sender;
        self.cleanup_reward_amount = self.cleanup_reward_amount + paid.transfer_amount_signer;
        Ok(paid)
    }
}

impl Stream {
    /// Insolvency escape valve: once the escrow cannot cover what the recipient has
    /// earned, anyone at all can cancel the stream.
    pub proof fn lemma_insolvent_stream_open_to_cancel(self, caller: Address, now: u64)
        requires
            !self.is_cancelled,
            self.is_insolvent(now),
        ensures
            self.cancel_refusal(caller, self.recipient, now) is None,
    {
    }

    /// A cancelled stream stays cancelled: cancelling it again is refused, whoever
    /// asks and whenever.
    pub proof fn lemma_cancel_only_once(
        self,
        paid: CancelTransferParams,
        caller: Address,
        recipient: Address,
        now: u64,
    )
        ensures
            self.after_cancel(paid).cancel_refusal(caller, recipient, now) == Some(
                StreamError::Unauthorized,
            ),
    {
    }
}

} // verus!
