use vstd::prelude::*;
use crate::address::Address;

verus! {

/// The most rewarders that a reward board lists.
pub const MAX_REWARDERS: usize = 100;

/// One line of a reward board: who gives rewards, and how much in each reward mint.
#[derive(Debug, Clone, Copy)]
pub struct Rewarder {
    pub rewarder: Address,
    pub reward: u64,
    pub opt_reward: u64,
}

/// The rewarders of an activity, in the order in which they were listed.
#[derive(Debug, Clone)]
pub struct RewardBoard {
    pub activity_key: Address,
    pub rewarders: Vec<Rewarder>,
}

impl RewardBoard {
    /// The board lists no more rewarders than it may.
    pub open spec fn wf(self) -> bool {
        self.rewarders@.len() <= MAX_REWARDERS
    }

    /// Writes the reward board of an activity; none if more than `MAX_REWARDERS`
    /// rewarders are given.
    pub fn initialize(activity_key: Address, rewarders: Vec<Rewarder>) -> (board: Option<
        RewardBoard,
    >)
        ensures
            match board {
                Some(board) => {
                    &&& rewarders@.len() <= MAX_REWARDERS
                    &&& board.activity_key == activity_key
                    &&& board.rewarders == rewarders
                    &&& board.wf()
                },
                None => rewarders@.len() > MAX_REWARDERS,
            },
    {
        if rewarders.len() > MAX_REWARDERS {
            None
        } else {
            Some(RewardBoard { activity_key, rewarders })
        }
    }
}

} // verus!
