use vstd::prelude::*;
use crate::address::Address;
use crate::error::StreamError;
use crate::utils::flow_between;
use crate::utils::intervals_between;
use crate::utils::lemma_flow_monotonic;

verus! {

/// A non-prepaid stream must be opened with at least the flow of this many seconds.
pub const DEPOSIT_AMOUNT_PERIOD_IN_SECS: u64 = 28_800;

/// The share of a third party who cancels an insolvent stream is given in
/// hundredths of a percent of the escrow; this is the whole.
pub const CLEANUP_SHARE_DENOMINATOR: u64 = 10_000;

/// A capability that a stream may grant, and the time from which it is granted.
#[derive(Debug, Clone, Copy, PartialEq, Eq, Structural)]
pub struct Permission {
    pub enabled: bool,
    pub active_from: u64,
}

impl Permission {
    /// The capability is granted at `now`: it is enabled and its time has come.
    pub open spec fn granted(self, now: u64) -> bool {
        self.enabled && now >= self.active_from
    }

    /// An enabled capability becomes active within the stream's lifetime.
    pub open spec fn within(self, starts_at: u64, ends_at: u64) -> bool {
        self.enabled ==> starts_at <= self.active_from <= ends_at
    }

    /// Tells whether the capability is granted at `now`.
    pub fn is_granted(&self, now: u64) -> (granted: bool)
        ensures
            granted == self.granted(now),
    {
        self.enabled && now >= self.active_from
    }

    /// Tells whether the capability becomes active within `[starts_at, ends_at]`.
    pub fn is_within(&self, starts_at: u64, ends_at: u64) -> (within: bool)
        ensures
            within == self.within(starts_at, ends_at),
    {
        !self.enabled || (starts_at <= self.active_from && self.active_from <= ends_at)
    }
}

/// Where a stream stands at a given time, as its record shows it.
#[derive(Debug, Clone, Copy, PartialEq, Eq, Structural)]
pub enum StreamState {
    /// Not yet started.
    Scheduled,
    /// Started, not ended, and its clock is running.
    Active,
    /// Not ended, and its clock stands still.
    Paused,
    /// Its lifetime is over.
    Ended,
    /// Cancelled; nothing is valid any more.
    Cancelled,
}

/// What leaves the escrow when a stream is cancelled, by destination.
#[derive(Debug, Clone, Copy, PartialEq, Eq, Structural)]
pub struct CancelTransferParams {
    pub transfer_amount_sender: u64,
    pub transfer_amount_signer: u64,
    pub transfer_amount_recipient: u64,
}

/// A stream of payments from a sender to a recipient, with its books.
///
/// From `starts_at` on the recipient earns `initial_amount`, and `flow_rate` more for
/// every whole `flow_interval` of active time until `ends_at`. Time spent paused is not
/// active. The books record what was put into the escrow and what has left it, so that
/// the escrow's balance is always `escrowed()`.
#[derive(Debug, Clone)]
pub struct Stream {
    pub is_prepaid: bool,
    pub mint: Address,
    pub sender: Address,
    pub recipient: Address,
    pub name: String,
    pub seed: u64,
    pub bump: u8,
    pub starts_at: u64,
    pub ends_at: u64,
    pub initial_amount: u64,
    pub flow_interval: u64,
    pub flow_rate: u64,
    pub sender_can_cancel: Permission,
    pub sender_can_change_sender: Permission,
    pub sender_can_pause: Permission,
    pub recipient_can_resume_pause_by_sender: Permission,
    pub anyone_can_withdraw_for_recipient: Permission,
    /// Set once the stream has been cancelled; nothing is valid afterwards.
    pub is_cancelled: bool,
    /// The time of the pause that is in force, if any.
    pub paused_at: Option<u64>,
    /// Whether the pause in force was made by the sender.
    pub is_paused_by_sender: bool,
    /// Seconds of the stream's lifetime that were spent in pauses that have ended.
    pub total_paused_duration: u64,
    /// Everything that was ever put into the escrow.
    pub total_deposited: u64,
    /// Everything that was paid out to the recipient.
    pub withdrawn_amount: u64,
    /// Everything that was handed back to the sender.
    pub refunded_amount: u64,
    /// What a third party received for cancelling the stream when it was insolvent.
    pub cleanup_reward_amount: u64,
}

impl Stream {
    /// The number of whole intervals in the stream's lifetime.
    pub open spec fn lifetime_intervals(self) -> int {
        intervals_between(self.starts_at as int, self.ends_at as int, self.flow_interval as int)
    }

    /// The most that the recipient can ever earn.
    pub open spec fn lifetime_amount(self) -> int {
        self.initial_amount + self.lifetime_intervals() * self.flow_rate
    }

    /// The time `t`, moved into the stream's lifetime.
    pub open spec fn within_lifetime(self, t: int) -> int {
        if t < self.starts_at {
            self.starts_at as int
        } else if t > self.ends_at {
            self.ends_at as int
        } else {
            t
        }
    }

    /// What the stream's clock shows at `at`: it stands still while the stream is paused.
    pub open spec fn effective_time(self, at: u64) -> int {
        match self.paused_at {
            Some(paused_at) => if paused_at < at {
                paused_at as int
            } else {
                at as int
            },
            None => at as int,
        }
    }

    /// The flow that the recipient has earned at `at`: one `flow_rate` for every whole
    /// interval of the lifetime that has passed on the stream's clock, pauses left out.
    pub open spec fn accrued_flow(self, at: u64) -> int {
        flow_between(
            self.starts_at + self.total_paused_duration,
            self.within_lifetime(self.effective_time(at)),
            self.flow_interval as int,
            self.flow_rate as int,
        )
    }

    /// Everything that the recipient has earned at `at`: nothing before the stream
    /// starts, then the initial amount and the flow.
    pub open spec fn accrued(self, at: u64) -> int {
        if self.effective_time(at) < self.starts_at {
            0
        } else {
            self.initial_amount + self.accrued_flow(at)
        }
    }

    /// What the escrow holds: what was put in, less what has left.
    pub open spec fn escrowed(self) -> int {
        self.total_deposited - self.withdrawn_amount - self.refunded_amount
            - self.cleanup_reward_amount
    }

    /// What the recipient has earned at `now` and not yet received.
    pub open spec fn entitlement(self, now: u64) -> int {
        if self.accrued(now) > self.withdrawn_amount {
            self.accrued(now) - self.withdrawn_amount
        } else {
            0
        }
    }

    /// The escrow cannot cover what the recipient has earned.
    pub open spec fn is_insolvent(self, now: u64) -> bool {
        self.escrowed() < self.entitlement(now)
    }

    /// What can be paid to the recipient at `now`: the entitlement, as far as the
    /// escrow covers it.
    pub open spec fn withdrawable(self, now: u64) -> int {
        if self.is_insolvent(now) {
            self.escrowed()
        } else {
            self.entitlement(now)
        }
    }

    /// Every enabled permission becomes active within the stream's lifetime.
    pub open spec fn permissions_within_lifetime(self) -> bool {
        &&& self.sender_can_cancel.within(self.starts_at, self.ends_at)
        &&& self.sender_can_change_sender.within(self.starts_at, self.ends_at)
        &&& self.sender_can_pause.within(self.starts_at, self.ends_at)
        &&& self.recipient_can_resume_pause_by_sender.within(self.starts_at, self.ends_at)
        &&& self.anyone_can_withdraw_for_recipient.within(self.starts_at, self.ends_at)
    }

    /// The stream is well formed: its schedule and permissions are valid, its lifetime
    /// amount fits in 64 bits, and its books are sound: the escrow is not overdrawn and
    /// holds no more than the recipient can still earn.
    pub open spec fn wf(self) -> bool {
        &&& self.starts_at < self.ends_at
        &&& self.flow_interval > 0
        &&& self.lifetime_amount() <= u64::MAX
        &&& self.permissions_within_lifetime()
        &&& self.escrowed() >= 0
        &&& self.escrowed() + self.withdrawn_amount <= self.lifetime_amount()
        &&& self.total_paused_duration <= self.ends_at - self.starts_at
        &&& self.is_prepaid ==> self.paused_at is None && self.total_paused_duration == 0
        &&& self.paused_at is None ==> !self.is_paused_by_sender
        &&& self.is_cancelled ==> self.escrowed() == 0
    }

    /// Nothing has been put into the escrow yet, and nothing has happened to the stream.
    pub open spec fn is_fresh(self) -> bool {
        &&& !self.is_cancelled
        &&& self.paused_at is None
        &&& !self.is_paused_by_sender
        &&& self.total_paused_duration == 0
        &&& self.total_deposited == 0
        &&& self.withdrawn_amount == 0
        &&& self.refunded_amount == 0
        &&& self.cleanup_reward_amount == 0
    }

    /// With a valid schedule, what has accrued never exceeds the lifetime amount, and
    /// never decreases as time passes.
    pub proof fn lemma_accrued_bounds(self, earlier: u64, later: u64)
        requires
            self.starts_at < self.ends_at,
            self.flow_interval > 0,
            earlier <= later,
        ensures
            0 <= self.accrued(earlier) <= self.accrued(later) <= self.lifetime_amount(),
    {
        let from = self.starts_at + self.total_paused_duration;
        let e1 = self.within_lifetime(self.effective_time(earlier));
        let e2 = self.within_lifetime(self.effective_time(later));
        lemma_flow_monotonic(from, e1, e2, self.flow_interval as int, self.flow_rate as int);
        lemma_flow_monotonic(
            from,
            e2,
            self.ends_at + self.total_paused_duration,
            self.flow_interval as int,
            self.flow_rate as int,
        );
    }
}

impl Stream {
    /// The record of a stream that has just been created with the given terms: nothing
    /// deposited, nothing paid, not paused, not cancelled.
    pub open spec fn created(
        is_prepaid: bool,
        mint: Address,
        sender: Address,
        recipient: Address,
        name: String,
        starts_at: u64,
        ends_at: u64,
        initial_amount: u64,
        flow_interval: u64,
        flow_rate: u64,
        sender_can_cancel: Permission,
        sender_can_change_sender: Permission,
        sender_can_pause: Permission,
        recipient_can_resume_pause_by_sender: Permission,
        anyone_can_withdraw_for_recipient: Permission,
        seed: u64,
        bump: u8,
    ) -> Stream {
        Stream {
            is_prepaid,
            mint,
            sender,
            recipient,
            name,
            seed,
            bump,
            starts_at,
            ends_at,
            initial_amount,
            flow_interval,
            flow_rate,
            sender_can_cancel,
            sender_can_change_sender,
            sender_can_pause,
            recipient_can_resume_pause_by_sender,
            anyone_can_withdraw_for_recipient,
            is_cancelled: false,
            paused_at: None,
            is_paused_by_sender: false,
            total_paused_duration: 0,
            total_deposited: 0,
            withdrawn_amount: 0,
            refunded_amount: 0,
            cleanup_reward_amount: 0,
        }
    }

    /// Why a stream with these terms cannot be created, if it cannot: the schedule is
    /// looked at first, then the permissions, then the size of the lifetime amount.
    pub open spec fn creation_refusal(self) -> Option<StreamError> {
        if !(self.starts_at < self.ends_at && self.flow_interval > 0) {
            Some(StreamError::InvalidSchedule)
        } else if !self.permissions_within_lifetime() {
            Some(StreamError::InvalidPermissionWindow)
        } else if self.lifetime_amount() > u64::MAX {
            Some(StreamError::ArithmeticOverflow)
        } else {
            None
        }
    }

    /// Computes the lifetime amount, if it fits in 64 bits.
    fn checked_lifetime_amount(&self) -> (total: Option<u64>)
        requires
            self.flow_interval > 0,
        ensures
            match total {
                Some(t) => t == self.lifetime_amount(),
                None => self.lifetime_amount() > u64::MAX,
            },
    {
        let n: u64 = crate::utils::elapsed_intervals(
            self.starts_at,
            self.ends_at,
            self.flow_interval,
        );
        match n.checked_mul(self.flow_rate) {
            Some(flow) => self.initial_amount.checked_add(flow),
            None => None,
        }
    }

    /// Creates the record of a stream, or refuses its terms.
    ///
    /// The terms are refused with `InvalidSchedule` unless the stream ends after it
    /// starts and its interval is positive, with `InvalidPermissionWindow` if an enabled
    /// permission becomes active outside `[starts_at, ends_at]`, and with
    /// `ArithmeticOverflow` if the lifetime amount does not fit in 64 bits.
    pub fn initialize(
        is_prepaid: bool,
        mint: Address,
        sender: Address,
        recipient: Address,
        name: String,
        starts_at: u64,
        ends_at: u64,
        initial_amount: u64,
        flow_interval: u64,
        flow_rate: u64,
        sender_can_cancel: bool,
        sender_can_cancel_at: u64,
        sender_can_change_sender: bool,
        sender_can_change_sender_at: u64,
        sender_can_pause: bool,
        sender_can_pause_at: u64,
        recipient_can_resume_pause_by_sender: bool,
        recipient_can_resume_pause_by_sender_at: u64,
        anyone_can_withdraw_for_recipient: bool,
        anyone_can_withdraw_for_recipient_at: u64,
        seed: u64,
        bump: u8,
    ) -> (r: Result<Stream, StreamError>)
        ensures
            ({
                let terms = Stream::created(
                    is_prepaid,
                    mint,
                    sender,
                    recipient,
                    name,
                    starts_at,
                    ends_at,
                    initial_amount,
                    flow_interval,
                    flow_rate,
                    (Permission { enabled: sender_can_cancel, active_from: sender_can_cancel_at }),
                    (Permission {
                        enabled: sender_can_change_sender,
                        active_from: sender_can_change_sender_at,
                    }),
                    (Permission { enabled: sender_can_pause, active_from: sender_can_pause_at }),
                    (Permission {
                        enabled: recipient_can_resume_pause_by_sender,
                        active_from: recipient_can_resume_pause_by_sender_at,
                    }),
                    (Permission {
                        enabled: anyone_can_withdraw_for_recipient,
                        active_from: anyone_can_withdraw_for_recipient_at,
                    }),
                    seed,
                    bump,
                );
                match r {
                    Ok(stream) => {
                        &&& terms.creation_refusal() is None
                        &&& stream == terms
                        &&& stream.wf()
                        &&& stream.is_fresh()
                    },
                    Err(e) => terms.creation_refusal() == Some(e),
                }
            }),
    {
        let stream = Stream {
            is_prepaid,
            mint,
            sender,
            recipient,
            name,
            seed,
            bump,
            starts_at,
            ends_at,
            initial_amount,
            flow_interval,
            flow_rate,
            sender_can_cancel: Permission {
                enabled: sender_can_cancel,
                active_from: sender_can_cancel_at,
            },
            sender_can_change_sender: Permission {
                enabled: sender_can_change_sender,
                active_from: sender_can_change_sender_at,
            },
            sender_can_pause: Permission {
                enabled: sender_can_pause,
                active_from: sender_can_pause_at,
            },
            recipient_can_resume_pause_by_sender: Permission {
                enabled: recipient_can_resume_pause_by_sender,
                active_from: recipient_can_resume_pause_by_sender_at,
            },
            anyone_can_withdraw_for_recipient: Permission {
                enabled: anyone_can_withdraw_for_recipient,
                active_from: anyone_can_withdraw_for_recipient_at,
            },
            is_cancelled: false,
            paused_at: None,
            is_paused_by_sender: false,
            total_paused_duration: 0,
            total_deposited: 0,
            withdrawn_amount: 0,
            refunded_amount: 0,
            cleanup_reward_amount: 0,
        };
        if !(starts_at < ends_at && flow_interval > 0) {
            return Err(StreamError::InvalidSchedule);
        }
        if !stream.has_permissions_within_lifetime() {
            return Err(StreamError::InvalidPermissionWindow);
        }
        if stream.checked_lifetime_amount().is_none() {
            return Err(StreamError::ArithmeticOverflow);
        }
        proof {
            vstd::arithmetic::mul::lemma_mul_nonnegative(
                stream.lifetime_intervals(),
                stream.flow_rate as int,
            );
        }
        Ok(stream)
    }

    /// Tells whether every enabled permission becomes active within the lifetime.
    pub fn has_permissions_within_lifetime(&self) -> (ok: bool)
        ensures
            ok == self.permissions_within_lifetime(),
    {
        self.sender_can_cancel.is_within(self.starts_at, self.ends_at)
            && self.sender_can_change_sender.is_within(self.starts_at, self.ends_at)
            && self.sender_can_pause.is_within(self.starts_at, self.ends_at)
            && self.recipient_can_resume_pause_by_sender.is_within(self.starts_at, self.ends_at)
            && self.anyone_can_withdraw_for_recipient.is_within(self.starts_at, self.ends_at)
    }

    /// The whole intervals that count at `at`, if the stream has started on its clock.
    pub open spec fn counted_intervals(self, at: u64) -> Option<int> {
        if self.effective_time(at) < self.starts_at {
            None
        } else {
            Some(
                intervals_between(
                    self.starts_at + self.total_paused_duration,
                    self.within_lifetime(self.effective_time(at)),
                    self.flow_interval as int,
                ),
            )
        }
    }

    /// Counts the whole intervals that have passed at `at`, pauses left out; `None`
    /// before the stream has started.
    fn intervals_at(&self, at: u64) -> (n: Option<u64>)
        requires
            self.flow_interval > 0,
        ensures
            match n {
                Some(n) => self.counted_intervals(at) == Some(n as int),
                None => self.counted_intervals(at) is None,
            },
    {
        let clock: u64 = match self.paused_at {
            Some(paused_at) => if paused_at < at {
                paused_at
            } else {
                at
            },
            None => at,
        };
        if clock < self.starts_at {
            return None;
        }
        let end: u64 = if clock > self.ends_at {
            self.ends_at
        } else {
            clock
        };
        let active: u64 = if end > self.starts_at && end - self.starts_at
            > self.total_paused_duration {
            end - self.starts_at - self.total_paused_duration
        } else {
            0
        };
        proof {
            vstd::arithmetic::div_mod::lemma_div_basics_1(self.flow_interval as int);
        }
        Some(active / self.flow_interval)
    }

    /// Computes what the recipient has earned at `at`, or reports that the amount does
    /// not fit in 64 bits.
    pub fn accrued_amount(&self, at: u64) -> (r: Result<u64, StreamError>)
        requires
            self.flow_interval > 0,
        ensures
            match r {
                Ok(amount) => amount == self.accrued(at),
                Err(e) => e == StreamError::ArithmeticOverflow && self.accrued(at) > u64::MAX,
            },
    {
        match self.intervals_at(at) {
            None => Ok(0),
            Some(n) => match n.checked_mul(self.flow_rate) {
                Some(flow) => match self.initial_amount.checked_add(flow) {
                    Some(amount) => Ok(amount),
                    None => Err(StreamError::ArithmeticOverflow),
                },
                None => Err(StreamError::ArithmeticOverflow),
            },
        }
    }

    /// Computes what the recipient has earned at `at` on a well-formed stream, where
    /// the amount always fits.
    pub fn accrued_at(&self, at: u64) -> (amount: u64)
        requires
            self.wf(),
        ensures
            amount == self.accrued(at),
    {
        match self.intervals_at(at) {
            None => 0,
            Some(n) => {
                proof {
                    self.lemma_accrued_bounds(at, at);
                    vstd::arithmetic::mul::lemma_mul_nonnegative(n as int, self.flow_rate as int);
                }
                self.initial_amount + n * self.flow_rate
            },
        }
    }

    /// Computes what the recipient has earned at `now` and not yet received.
    pub fn entitlement_at(&self, now: u64) -> (amount: u64)
        requires
            self.wf(),
        ensures
            amount == self.entitlement(now),
    {
        let accrued: u64 = self.accrued_at(now);
        if accrued > self.withdrawn_amount {
            accrued - self.withdrawn_amount
        } else {
            0
        }
    }

    /// Reads the escrow's balance off the books.
    pub fn escrow_balance(&self) -> (balance: u64)
        requires
            self.escrowed() >= 0,
        ensures
            balance == self.escrowed(),
    {
        self.total_deposited - self.withdrawn_amount - self.refunded_amount
            - self.cleanup_reward_amount
    }

    /// Tells whether the record is well formed.
    pub fn is_well_formed(&self) -> (ok: bool)
        ensures
            ok == self.wf(),
    {
        if !(self.starts_at < self.ends_at && self.flow_interval > 0) {
            return false;
        }
        let lifetime: u64 = match self.checked_lifetime_amount() {
            Some(total) => total,
            None => {
                return false;
            },
        };
        if !self.has_permissions_within_lifetime() {
            return false;
        }
        let paid: u64 = match self.withdrawn_amount.checked_add(self.refunded_amount) {
            Some(sum) => match sum.checked_add(self.cleanup_reward_amount) {
                Some(sum) => sum,
                None => {
                    return false;
                },
            },
            None => {
                return false;
            },
        };
        if paid > self.total_deposited {
            return false;
        }
        let escrow: u64 = self.total_deposited - paid;
        if escrow > lifetime || self.withdrawn_amount > lifetime - escrow {
            return false;
        }
        if self.total_paused_duration > self.ends_at - self.starts_at {
            return false;
        }
        if self.is_prepaid && (self.paused_at.is_some() || self.total_paused_duration != 0) {
            return false;
        }
        if self.paused_at.is_none() && self.is_paused_by_sender {
            return false;
        }
        if self.is_cancelled && escrow != 0 {
            return false;
        }
        true
    }
}

impl Stream {
    /// Where the stream stands at `now`. A cancelled stream is cancelled whatever the
    /// time; a stream whose lifetime is over has ended, paused or not; and a stream that
    /// is paused before its start is paused.
    pub open spec fn state(self, now: u64) -> StreamState {
        if self.is_cancelled {
            StreamState::Cancelled
        } else if now >= self.ends_at {
            StreamState::Ended
        } else if self.paused_at is Some {
            StreamState::Paused
        } else if now < self.starts_at {
            StreamState::Scheduled
        } else {
            StreamState::Active
        }
    }

    /// Tells where the stream stands at `now`.
    pub fn state_at(&self, now: u64) -> (state: StreamState)
        ensures
            state == self.state(now),
    {
        if self.is_cancelled {
            StreamState::Cancelled
        } else if now >= self.ends_at {
            StreamState::Ended
        } else if self.paused_at.is_some() {
            StreamState::Paused
        } else if now < self.starts_at {
            StreamState::Scheduled
        } else {
            StreamState::Active
        }
    }
}

} // verus!
