use vstd::prelude::*;
use crate::address::zero_address;
use crate::address::Address;
use crate::error::StreamError;
use crate::state::payout::lemma_cleanup_share_bounded;
use crate::state::stream::Stream;
use crate::state::stream::StreamState;
use crate::utils::lemma_flow_monotonic;

verus! {

/// An operation on a stream, with what it is called with.
pub enum Operation {
    InitializePrepaid,
    InitializeNonPrepaid { topup_amount: u64 },
    Topup { topup_amount: u64 },
    ChangeSender { caller: Address, new_sender: Address, now: u64 },
    Pause { caller: Address, now: u64 },
    Resume { caller: Address, now: u64 },
    Withdraw { caller: Address, recipient: Address, new_recipient: Address, now: u64 },
    WithdrawExcess { now: u64 },
    Cancel { caller: Address, recipient: Address, now: u64, cleanup_share: u64 },
}

/// What has been moved into an escrow and out of it, by destination.
pub struct Moved {
    pub deposited: int,
    pub to_recipient: int,
    pub to_sender: int,
    pub to_signer: int,
}

impl Moved {
    /// Nothing moved.
    pub open spec fn nothing() -> Moved {
        Moved { deposited: 0, to_recipient: 0, to_sender: 0, to_signer: 0 }
    }

    /// Both movements together.
    pub open spec fn and(self, other: Moved) -> Moved {
        Moved {
            deposited: self.deposited + other.deposited,
            to_recipient: self.to_recipient + other.to_recipient,
            to_sender: self.to_sender + other.to_sender,
            to_signer: self.to_signer + other.to_signer,
        }
    }

    /// No amount is negative.
    pub open spec fn is_valid(self) -> bool {
        self.deposited >= 0 && self.to_recipient >= 0 && self.to_sender >= 0 && self.to_signer >= 0
    }

    /// What the movements leave in the escrow: what came in, less what went out.
    pub open spec fn balance(self) -> int {
        self.deposited - self.to_recipient - self.to_sender - self.to_signer
    }
}

impl Operation {
    /// The time at which the operation is called, if it is called with one.
    pub open spec fn time(self) -> Option<u64> {
        match self {
            Operation::InitializePrepaid => None,
            Operation::InitializeNonPrepaid { topup_amount } => None,
            Operation::Topup { topup_amount } => None,
            Operation::ChangeSender { caller, new_sender, now } => Some(now),
            Operation::Pause { caller, now } => Some(now),
            Operation::Resume { caller, now } => Some(now),
            Operation::Withdraw { caller, recipient, new_recipient, now } => Some(now),
            Operation::WithdrawExcess { now } => Some(now),
            Operation::Cancel { caller, recipient, now, cleanup_share } => Some(now),
        }
    }
}

/// The operations are called at times that never go back, none before `since`.
pub open spec fn in_time_order(ops: Seq<Operation>, since: u64) -> bool
    decreases ops.len(),
{
    if ops.len() == 0 {
        true
    } else {
        in_time_order(ops.drop_last(), since) && match ops.last().time() {
            Some(now) => latest_time(ops.drop_last(), since) <= now,
            None => true,
        }
    }
}

/// The latest time at which one of the operations is called; `since` if none has one.
pub open spec fn latest_time(ops: Seq<Operation>, since: u64) -> u64
    decreases ops.len(),
{
    if ops.len() == 0 {
        since
    } else {
        match ops.last().time() {
            Some(now) => now,
            None => latest_time(ops.drop_last(), since),
        }
    }
}

impl Stream {
    /// Why the operation is refused on this stream, if it is: what the function of
    /// that operation returns as its error.
    pub open spec fn refusal_of(self, op: Operation) -> Option<StreamError> {
        match op {
            Operation::InitializePrepaid => self.initialize_prepaid_refusal(),
            Operation::InitializeNonPrepaid { topup_amount } => self.initialize_non_prepaid_refusal(
                topup_amount,
            ),
            Operation::Topup { topup_amount } => self.topup_refusal(topup_amount),
            Operation::ChangeSender { caller, new_sender, now } => if self.may_change_sender(
                caller,
                now,
            ) {
                None
            } else {
                Some(StreamError::Unauthorized)
            },
            Operation::Pause { caller, now } => if self.may_pause(caller, now) {
                None
            } else {
                Some(StreamError::Unauthorized)
            },
            Operation::Resume { caller, now } => if self.may_resume(caller, now) {
                None
            } else {
                Some(StreamError::Unauthorized)
            },
            Operation::Withdraw { caller, recipient, new_recipient, now } => self.withdraw_refusal(
                caller,
                recipient,
                new_recipient@ != zero_address(),
                now,
            ),
            Operation::WithdrawExcess { now } => if self.may_withdraw_excess(now) {
                None
            } else {
                Some(StreamError::Unauthorized)
            },
            Operation::Cancel { caller, recipient, now, cleanup_share } => self.cancel_refusal(
                caller,
                recipient,
                now,
            ),
        }
    }

    /// The stream after the operation: as the function of that operation leaves it.
    /// A refused operation leaves it as it was.
    pub open spec fn after(self, op: Operation) -> Stream {
        if self.refusal_of(op) is Some {
            self
        } else {
            match op {
                Operation::InitializePrepaid => self.after_deposit(self.lifetime_amount()),
                Operation::InitializeNonPrepaid { topup_amount } => self.after_deposit(
                    topup_amount as int,
                ),
                Operation::Topup { topup_amount } => self.after_deposit(topup_amount as int),
                Operation::ChangeSender { caller, new_sender, now } => self.after_change_sender(
                    new_sender,
                ),
                Operation::Pause { caller, now } => self.after_pause(caller, now),
                Operation::Resume { caller, now } => self.after_resume(now),
                Operation::Withdraw {
                    caller,
                    recipient,
                    new_recipient,
                    now,
                } => self.after_withdraw(now).after_change_recipient(new_recipient),
                Operation::WithdrawExcess { now } => self.after_withdraw_excess(now),
                Operation::Cancel { caller, recipient, now, cleanup_share } => self.after_cancel(
                    self.cancel_settlement(caller, now, cleanup_share),
                ),
            }
        }
    }

    /// What the operation moves into the escrow and out of it: the amounts that the
    /// function of that operation returns. A refused operation moves nothing.
    pub open spec fn moved_by(self, op: Operation) -> Moved {
        if self.refusal_of(op) is Some {
            Moved::nothing()
        } else {
            match op {
                Operation::InitializePrepaid => Moved {
                    deposited: self.lifetime_amount(),
                    ..Moved::nothing()
                },
                Operation::InitializeNonPrepaid { topup_amount } => Moved {
                    deposited: topup_amount as int,
                    ..Moved::nothing()
                },
                Operation::Topup { topup_amount } => Moved {
                    deposited: topup_amount as int,
                    ..Moved::nothing()
                },
                Operation::Withdraw { caller, recipient, new_recipient, now } => Moved {
                    to_recipient: self.withdrawable(now),
                    ..Moved::nothing()
                },
                Operation::WithdrawExcess { now } => Moved {
                    to_sender: self.excess(now),
                    ..Moved::nothing()
                },
                Operation::Cancel { caller, recipient, now, cleanup_share } => {
                    let paid = self.cancel_settlement(caller, now, cleanup_share);
                    Moved {
                        deposited: 0,
                        to_recipient: paid.transfer_amount_recipient as int,
                        to_sender: paid.transfer_amount_sender as int,
                        to_signer: paid.transfer_amount_signer as int,
                    }
                },
                _ => Moved::nothing(),
            }
        }
    }

    /// The stream after the operations, one after another.
    pub open spec fn after_all(self, ops: Seq<Operation>) -> Stream
        decreases ops.len(),
    {
        if ops.len() == 0 {
            self
        } else {
            self.after_all(ops.drop_last()).after(ops.last())
        }
    }

    /// Everything that the operations move, one after another.
    pub open spec fn moved_by_all(self, ops: Seq<Operation>) -> Moved
        decreases ops.len(),
    {
        if ops.len() == 0 {
            Moved::nothing()
        } else {
            self.moved_by_all(ops.drop_last()).and(
                self.after_all(ops.drop_last()).moved_by(ops.last()),
            )
        }
    }

    /// At `at` the recipient has received no more than they have earned, and a pause
    /// in force did not begin later.
    pub open spec fn is_settled_at(self, at: u64) -> bool {
        &&& self.withdrawn_amount <= self.accrued(at)
        &&& match self.paused_at {
            Some(paused_at) => paused_at <= at,
            None => true,
        }
    }

    /// One operation keeps the books: the stream stays well formed, the escrow changes
    /// by exactly what the operation moves, and what the recipient has received does
    /// not decrease.
    pub proof fn lemma_operation_keeps_books(self, op: Operation)
        requires
            self.wf(),
        ensures
            self.after(op).wf(),
            self.moved_by(op).is_valid(),
            self.after(op).escrowed() == self.escrowed() + self.moved_by(op).balance(),
            self.after(op).withdrawn_amount >= self.withdrawn_amount,
            self.after(op).withdrawn_amount == self.withdrawn_amount + self.moved_by(
                op,
            ).to_recipient,
    {
        if self.refusal_of(op) is None {
            match op {
                Operation::Cancel { caller, recipient, now, cleanup_share } => {
                    lemma_cleanup_share_bounded(self.escrowed(), cleanup_share);
                },
                _ => {},
            }
        }
    }

    /// Conservation: whatever operations are called on a well-formed stream, in
    /// whatever order, the stream stays well formed, and its escrow holds what it held
    /// before, and what was put in, less what was paid to the recipient, to the sender
    /// and to the signer. It is never negative.
    pub proof fn lemma_conservation(self, ops: Seq<Operation>)
        requires
            self.wf(),
        ensures
            self.after_all(ops).wf(),
            self.moved_by_all(ops).is_valid(),
            self.after_all(ops).escrowed() == self.escrowed() + self.moved_by_all(ops).balance(),
            self.after_all(ops).escrowed() >= 0,
        decreases ops.len(),
    {
        if ops.len() > 0 {
            self.lemma_conservation(ops.drop_last());
            self.after_all(ops.drop_last()).lemma_operation_keeps_books(ops.last());
        }
    }

    /// Of a stream that starts with empty books, the escrow holds exactly what was put
    /// in, less what was paid out.
    pub proof fn lemma_conservation_from_creation(self, ops: Seq<Operation>)
        requires
            self.wf(),
            self.is_fresh(),
        ensures
            self.after_all(ops).escrowed() == self.moved_by_all(ops).deposited
                - self.moved_by_all(ops).to_recipient - self.moved_by_all(ops).to_sender
                - self.moved_by_all(ops).to_signer,
            self.after_all(ops).escrowed() >= 0,
    {
        self.lemma_conservation(ops);
    }

    /// Monotonic withdrawal: whatever operations are called, what the recipient has
    /// received never decreases.
    pub proof fn lemma_withdrawn_never_decreases(self, ops: Seq<Operation>)
        requires
            self.wf(),
        ensures
            self.after_all(ops).withdrawn_amount >= self.withdrawn_amount,
        decreases ops.len(),
    {
        if ops.len() > 0 {
            self.lemma_conservation(ops.drop_last());
            self.lemma_withdrawn_never_decreases(ops.drop_last());
            self.after_all(ops.drop_last()).lemma_operation_keeps_books(ops.last());
        }
    }
}

impl Stream {
    /// Ending a pause takes nothing from what the recipient has earned: at the time of
    /// the resumption they have earned at least what they had earned while paused, and
    /// exactly that if the pause began after the stream's start.
    pub proof fn lemma_resume_keeps_accrued(self, now: u64)
        requires
            self.wf(),
            self.paused_at is Some,
            self.paused_at.unwrap() <= now,
        ensures
            self.after_resume(now).accrued(now) >= self.accrued(now),
            self.paused_at.unwrap() >= self.starts_at ==> self.after_resume(now).accrued(now)
                == self.accrued(now),
    {
        let resumed = self.after_resume(now);
        lemma_flow_monotonic(
            resumed.starts_at + resumed.total_paused_duration,
            resumed.within_lifetime(now as int),
            resumed.within_lifetime(now as int),
            resumed.flow_interval as int,
            resumed.flow_rate as int,
        );
    }

    /// One operation, called no earlier than `at`, keeps the stream settled: if the
    /// recipient had received no more than they had earned at `at`, then after the
    /// operation they have received no more than they have earned at its time.
    pub proof fn lemma_operation_keeps_settled(self, op: Operation, at: u64)
        requires
            self.wf(),
            self.is_settled_at(at),
            op.time() matches Some(now) ==> at <= now,
        ensures
            self.after(op).is_settled_at(
                match op.time() {
                    Some(now) => now,
                    None => at,
                },
            ),
    {
        match op.time() {
            Some(now) => {
                self.lemma_accrued_bounds(at, now);
                if self.refusal_of(op) is None {
                    match op {
                        Operation::Resume { caller, now } => {
                            self.lemma_resume_keeps_accrued(now);
                        },
                        Operation::Cancel { caller, recipient, now, cleanup_share } => {
                            lemma_cleanup_share_bounded(self.escrowed(), cleanup_share);
                        },
                        _ => {},
                    }
                }
            },
            None => {},
        }
    }

    /// Monotonic withdrawal: if the operations are called at times that never go back,
    /// then after each of them, and so after every withdrawal, the recipient has
    /// received no more than they have earned at that time.
    pub proof fn lemma_withdrawn_within_accrued(self, ops: Seq<Operation>, since: u64)
        requires
            self.wf(),
            self.is_settled_at(since),
            in_time_order(ops, since),
        ensures
            self.after_all(ops).is_settled_at(latest_time(ops, since)),
        decreases ops.len(),
    {
        if ops.len() > 0 {
            self.lemma_conservation(ops.drop_last());
            self.lemma_withdrawn_within_accrued(ops.drop_last(), since);
            self.after_all(ops.drop_last()).lemma_operation_keeps_settled(
                ops.last(),
                latest_time(ops.drop_last(), since),
            );
        }
    }
}

impl Stream {
    /// Cancellation is final: on a cancelled stream every operation is refused.
    pub proof fn lemma_cancelled_stream_refuses_everything(self, op: Operation)
        requires
            self.is_cancelled,
        ensures
            self.refusal_of(op) is Some,
            self.after(op) == self,
            self.moved_by(op) == Moved::nothing(),
    {
    }

    /// Only a stream that is scheduled or active can be paused, and only a stream that
    /// is paused, or has ended while paused, can be resumed.
    pub proof fn lemma_pause_and_resume_follow_the_state(self, caller: Address, now: u64)
        ensures
            self.may_pause(caller, now) ==> self.state(now) == StreamState::Scheduled
                || self.state(now) == StreamState::Active,
            self.may_resume(caller, now) ==> self.state(now) == StreamState::Paused
                || self.state(now) == StreamState::Ended,
            self.may_withdraw_excess(now) ==> self.state(now) == StreamState::Ended,
    {
    }
}

} // verus!
