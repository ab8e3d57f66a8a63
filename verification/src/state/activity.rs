use vstd::prelude::*;
use crate::address::same_address;
use crate::address::Address;

verus! {

/// A campaign: who runs it, when it runs, what is staked and in which mints rewards
/// are paid. It is written once and read by distributors.
#[derive(Debug, Clone)]
pub struct Activity {
    pub is_active: bool,
    pub creator: Address,
    pub stake_mint: Address,
    pub reward_mint: Address,
    pub opt_reward_mint: Address,
    pub starts_at: u64,
    pub ends_at: u64,
    pub reward_expires_at: u64,
    pub min_amount: u64,
    pub duration: u64,
    pub flow_rate: u64,
    pub seed: u64,
    pub bump: u8,
    pub name: String,
}

impl Activity {
    /// Rewards of this activity may be paid in `mint`: it is one of the two reward mints.
    pub open spec fn pays_in(self, mint: Address) -> bool {
        mint == self.reward_mint || mint == self.opt_reward_mint
    }

    /// Writes the record of an activity.
    pub fn initialize(
        is_active: bool,
        creator: Address,
        stake_mint: Address,
        reward_mint: Address,
        opt_reward_mint: Address,
        starts_at: u64,
        ends_at: u64,
        reward_expires_at: u64,
        min_amount: u64,
        duration: u64,
        flow_rate: u64,
        seed: u64,
        bump: u8,
        name: String,
    ) -> (activity: Activity)
        ensures
            activity == (Activity {
                is_active,
                creator,
                stake_mint,
                reward_mint,
                opt_reward_mint,
                starts_at,
                ends_at,
                reward_expires_at,
                min_amount,
                duration,
                flow_rate,
                seed,
                bump,
                name,
            }),
    {
        Activity {
            is_active,
            creator,
            stake_mint,
            reward_mint,
            opt_reward_mint,
            starts_at,
            ends_at,
            reward_expires_at,
            min_amount,
            duration,
            flow_rate,
            seed,
            bump,
            name,
        }
    }

    /// Tells whether rewards of this activity may be paid in `mint`.
    pub fn accepts_reward_mint(&self, mint: &Address) -> (ok: bool)
        ensures
            ok == self.pays_in(*mint),
    {
        same_address(mint, &self.reward_mint) || same_address(mint, &self.opt_reward_mint)
    }
}

} // verus!
