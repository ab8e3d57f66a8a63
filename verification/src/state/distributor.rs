use vstd::prelude::*;
use crate::address::default_address;
use crate::address::same_address;
use crate::address::zero_address;
use crate::address::Address;
use crate::error::StreamError;
use crate::merkle::Digest;
use crate::state::activity::Activity;

verus! {

/// The record that a claimer has been paid by a distributor. There is one for each
/// pair of distributor and claimer, and once it says "claimed" it says so for good.
#[derive(Debug, Clone, Copy)]
pub struct Status {
    pub is_claimed: bool,
    pub amount: u64,
    pub claimer: Address,
}

impl Status {
    /// Writes the record of a claimer who has not been paid.
    pub fn unclaimed() -> (status: Status)
        ensures
            !status.is_claimed,
            status.amount == 0,
            status.claimer@ == zero_address(),
    {
        Status { is_claimed: false, amount: 0, claimer: default_address() }
    }
}

/// A reward pool for one activity and one mint. Its Merkle root commits to the entries
/// `(index, claimer, amount)` that may be claimed from it.
#[derive(Debug, Clone, Copy)]
pub struct Distributor {
    pub activity_key: Address,
    pub bump: u8,
    pub root: Digest,
    pub creator_key: Address,
    pub total_claimed: u64,
    pub total_supply: u64,
    pub mint: Address,
}

impl Distributor {
    /// No more has been claimed than the pool was funded with.
    pub open spec fn wf(self) -> bool {
        self.total_claimed <= self.total_supply
    }

    /// What is left in the pool.
    pub open spec fn unclaimed(self) -> int {
        self.total_supply - self.total_claimed
    }

    /// The pool is exhausted: everything in it has been claimed or taken back. Until
    /// then it is funded.
    pub open spec fn exhausted(self) -> bool {
        self.total_claimed == self.total_supply
    }

    /// Tells whether the pool is exhausted.
    pub fn is_exhausted(&self) -> (exhausted: bool)
        ensures
            exhausted == self.exhausted(),
    {
        self.total_claimed == self.total_supply
    }

    /// Opens a pool of `total_supply` for an activity, to be funded in `mint` by
    /// `creator`. Refused with `WrongRewardMint` unless `mint` is one of the activity's
    /// two reward mints.
    pub fn initialize(
        activity: &Activity,
        activity_key: Address,
        mint: Address,
        creator: Address,
        bump: u8,
        root: Digest,
        total_supply: u64,
    ) -> (r: Result<Distributor, StreamError>)
        ensures
            match r {
                Ok(distributor) => {
                    &&& activity.pays_in(mint)
                    &&& distributor == (Distributor {
                        activity_key,
                        bump,
                        root,
                        creator_key: creator,
                        total_claimed: 0,
                        total_supply,
                        mint,
                    })
                    &&& distributor.wf()
                },
                Err(e) => e == StreamError::WrongRewardMint && !activity.pays_in(mint),
            },
    {
        if !activity.accepts_reward_mint(&mint) {
            return Err(StreamError::WrongRewardMint);
        }
        Ok(
            Distributor {
                activity_key,
                bump,
                root,
                creator_key: creator,
                total_claimed: 0,
                total_supply,
                mint,
            },
        )
    }

    /// Why a claim of `amount` in `mint` cannot be paid, if it cannot. The claimer's
    /// record is looked at first, then the pool, then the mint, then the proof.
    pub open spec fn claim_refusal(
        self,
        status: Status,
        mint: Address,
        amount: u64,
        proof_is_valid: bool,
    ) -> Option<StreamError> {
        if status.is_claimed {
            Some(StreamError::AlreadyClaimed)
        } else if self.total_claimed + amount > self.total_supply {
            Some(StreamError::MaxClaim)
        } else if mint != self.mint {
            Some(StreamError::InvalidRecipient)
        } else if !proof_is_valid {
            Some(StreamError::InvalidMerkleProof)
        } else {
            None
        }
    }

    /// The pool after `amount` has been paid from it.
    pub open spec fn after_claim(self, amount: u64) -> Distributor {
        Distributor { total_claimed: (self.total_claimed + amount) as u64, ..self }
    }

    /// Books a claim whose proof has been checked: marks the claimer as paid and takes
    /// `amount` from the pool. Returns the amount to move from the pool's escrow to the
    /// claimer.
    ///
    /// Refused with `AlreadyClaimed` if the claimer has been paid before, with
    /// `MaxClaim` if the pool does not hold `amount`, with `InvalidRecipient` if `mint`
    /// is not the pool's mint, and with `InvalidMerkleProof` if the proof was found
    /// wrong.
    pub fn record_claim(
        &mut self,
        status: &mut Status,
        claimer: Address,
        mint: &Address,
        amount: u64,
        proof_is_valid: bool,
    ) -> (r: Result<u64, StreamError>)
        requires
            old(self).wf(),
        ensures
            final(self).wf(),
            match r {
                Ok(paid) => {
                    &&& old(self).claim_refusal(*old(status), *mint, amount, proof_is_valid) is None
                    &&& paid == amount
                    &&& *final(self) == old(self).after_claim(amount)
                    &&& *final(status) == (Status { is_claimed: true, amount, claimer })
                    &&& final(self).unclaimed() == old(self).unclaimed() - paid
                },
                Err(e) => {
                    &&& old(self).claim_refusal(*old(status), *mint, amount, proof_is_valid)
                        == Some(e)
                    &&& *final(self) == *old(self)
                    &&& *final(status) == *old(status)
                },
            },
    {
        if status.is_claimed {
            return Err(StreamError::AlreadyClaimed);
        }
        if amount > self.total_supply - self.total_claimed {
            return Err(StreamError::MaxClaim);
        }
        if !same_address(mint, &self.mint) {
            return Err(StreamError::InvalidRecipient);
        }
        if !proof_is_valid {
            return Err(StreamError::InvalidMerkleProof);
        }
        status.amount = amount;
        status.is_claimed = true;
        status.claimer = claimer;
        self.total_claimed = self.total_claimed + amount;
        Ok(amount)
    }

    /// Closes the pool and returns what is left in it, to be moved from the pool's
    /// escrow to the caller. Refused with `MaxClaim` if nothing is left.
    pub fn recycle(&mut self) -> (r: Result<u64, StreamError>)
        requires
            old(self).wf(),
        ensures
            final(self).wf(),
            match r {
                Ok(amount) => {
                    &&& old(self).total_claimed < old(self).total_supply
                    &&& amount == old(self).unclaimed()
                    &&& *final(self) == (Distributor {
                        total_claimed: old(self).total_supply,
                        ..*old(self)
                    })
                    &&& final(self).unclaimed() == 0
                    &&& final(self).exhausted()
                },
                Err(e) => {
                    &&& e == StreamError::MaxClaim
                    &&& old(self).total_claimed >= old(self).total_supply
                    &&& *final(self) == *old(self)
                },
            },
    {
        if self.total_claimed >= self.total_supply {
            return Err(StreamError::MaxClaim);
        }
        let amount: u64 = self.total_supply - self.total_claimed;
        self.total_claimed = self.total_supply;
        Ok(amount)
    }
}

impl Distributor {
    /// Claim dedup: once a claim has been paid, every further claim on the same
    /// claimer's record is refused with `AlreadyClaimed`, whatever its amount, mint and
    /// proof.
    pub proof fn lemma_second_claim_refused(
        self,
        status: Status,
        claimer: Address,
        mint: Address,
        amount: u64,
        proof_is_valid: bool,
        other_mint: Address,
        other_amount: u64,
        other_proof_is_valid: bool,
    )
        requires
            self.claim_refusal(status, mint, amount, proof_is_valid) is None,
        ensures
            self.after_claim(amount).claim_refusal(
                (Status { is_claimed: true, amount, claimer }),
                other_mint,
                other_amount,
                other_proof_is_valid,
            ) == Some(StreamError::AlreadyClaimed),
    {
    }

    /// A closed pool pays no claim of a positive amount: it is refused with `MaxClaim`.
    pub proof fn lemma_closed_pool_pays_nothing(
        self,
        status: Status,
        mint: Address,
        amount: u64,
        proof_is_valid: bool,
    )
        requires
            self.total_claimed == self.total_supply,
            !status.is_claimed,
            amount > 0,
        ensures
            self.claim_refusal(status, mint, amount, proof_is_valid) == Some(
                StreamError::MaxClaim,
            ),
    {
    }
}

} // verus!
