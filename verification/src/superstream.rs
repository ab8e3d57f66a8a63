use vstd::prelude::*;
use crate::address::Address;
use crate::create;
use crate::create_activity_internal;
use crate::create_refusal;
use crate::error::StreamError;
use crate::merkle::digest_bytes;
use crate::merkle::fold_proof;
use crate::merkle::leaf_hash;
use crate::merkle::leaf_of;
use crate::merkle::verify;
use crate::merkle::Digest;
use crate::state::activity::Activity;
use crate::state::distributor::Distributor;
use crate::state::distributor::Status;
use crate::state::reward_board::RewardBoard;
use crate::state::reward_board::Rewarder;
use crate::state::reward_board::MAX_REWARDERS;
use crate::state::stream::Permission;
use crate::state::stream::Stream;
use crate::transfer::cancel_legs;
use crate::transfer::cancel_transfers;
use crate::transfer::leg;
use crate::transfer::single_transfer;
use crate::transfer::total_of;
use crate::transfer::Destination;
use crate::transfer::Settlement;
use crate::CreateStreamEvent;

verus! {

/// Creates a prepaid stream. Returns its record, funded in full, the amount that the
/// sender must put into the escrow, which is the stream's lifetime amount, and the
/// notice of the creation. Refused as `create` refuses.
pub fn create_prepaid(
    escrow_is_rent_exempt: bool,
    stream_key: Address,
    mint: Address,
    sender: Address,
    bump: u8,
    seed: u64,
    name: String,
    recipient: Address,
    starts_at: u64,
    ends_at: u64,
    initial_amount: u64,
    flow_interval: u64,
    flow_rate: u64,
    sender_can_cancel: bool,
    sender_can_cancel_at: u64,
    sender_can_change_sender: bool,
    sender_can_change_sender_at: u64,
    sender_can_pause: bool,
    sender_can_pause_at: u64,
    recipient_can_resume_pause_by_sender: bool,
    recipient_can_resume_pause_by_sender_at: u64,
    anyone_can_withdraw_for_recipient: bool,
    anyone_can_withdraw_for_recipient_at: u64,
) -> (r: Result<(Stream, u64, CreateStreamEvent), StreamError>)
    ensures
        ({
            let terms = Stream::created(
                true,
                mint,
                sender,
                recipient,
                name,
                starts_at,
                ends_at,
                initial_amount,
                flow_interval,
                flow_rate,
                (Permission { enabled: sender_can_cancel, active_from: sender_can_cancel_at }),
                (Permission {
                    enabled: sender_can_change_sender,
                    active_from: sender_can_change_sender_at,
                }),
                (Permission { enabled: sender_can_pause, active_from: sender_can_pause_at }),
                (Permission {
                    enabled: recipient_can_resume_pause_by_sender,
                    active_from: recipient_can_resume_pause_by_sender_at,
                }),
                (Permission {
                    enabled: anyone_can_withdraw_for_recipient,
                    active_from: anyone_can_withdraw_for_recipient_at,
                }),
                seed,
                bump,
            );
            match r {
                Ok((stream, amount, event)) => {
                    &&& create_refusal(escrow_is_rent_exempt, terms) is None
                    &&& amount == terms.lifetime_amount()
                    &&& stream == terms.after_deposit(amount as int)
                    &&& stream.wf()
                    &&& stream.escrowed() == amount
                    &&& event == (CreateStreamEvent {
                        sender,
                        recipient,
                        stream: stream_key,
                        amount: initial_amount,
                    })
                },
                Err(e) => create_refusal(escrow_is_rent_exempt, terms) == Some(e),
            }
        }),
{
    let mut stream = match create(
        escrow_is_rent_exempt,
        true,
        mint,
        sender,
        recipient,
        name,
        starts_at,
        ends_at,
        initial_amount,
        flow_interval,
        flow_rate,
        sender_can_cancel,
        sender_can_cancel_at,
        sender_can_change_sender,
        sender_can_change_sender_at,
        sender_can_pause,
        sender_can_pause_at,
        recipient_can_resume_pause_by_sender,
        recipient_can_resume_pause_by_sender_at,
        anyone_can_withdraw_for_recipient,
        anyone_can_withdraw_for_recipient_at,
        seed,
        bump,
    ) {
        Ok(stream) => stream,
        Err(e) => {
            return Err(e);
        },
    };
    let amount: u64 = match stream.initialize_prepaid() {
        Ok(amount) => amount,
        Err(e) => {
            return Err(e);
        },
    };
    let event = CreateStreamEvent { sender, recipient, stream: stream_key, amount: initial_amount };
    Ok((stream, amount, event))
}

/// Why a non-prepaid stream with the terms of `terms` cannot be created with a first
/// deposit of `topup_amount`, if it cannot.
pub open spec fn create_non_prepaid_refusal(
    escrow_is_rent_exempt: bool,
    terms: Stream,
    topup_amount: u64,
) -> Option<StreamError> {
    if create_refusal(escrow_is_rent_exempt, terms) is Some {
        create_refusal(escrow_is_rent_exempt, terms)
    } else {
        terms.initialize_non_prepaid_refusal(topup_amount)
    }
}

/// Creates a non-prepaid stream with a first deposit. Returns its record and the
/// amount that the sender must put into the escrow, which is `topup_amount`. Refused
/// as `create` refuses, with `DepositTooLow` if the deposit is below the minimum
/// deposit, and with `DepositTooHigh` if it is more than the stream's lifetime amount.
pub fn create_non_prepaid(
    escrow_is_rent_exempt: bool,
    mint: Address,
    sender: Address,
    bump: u8,
    seed: u64,
    name: String,
    recipient: Address,
    starts_at: u64,
    ends_at: u64,
    initial_amount: u64,
    flow_interval: u64,
    flow_rate: u64,
    sender_can_cancel: bool,
    sender_can_cancel_at: u64,
    sender_can_change_sender: bool,
    sender_can_change_sender_at: u64,
    sender_can_pause: bool,
    sender_can_pause_at: u64,
    recipient_can_resume_pause_by_sender: bool,
    recipient_can_resume_pause_by_sender_at: u64,
    anyone_can_withdraw_for_recipient: bool,
    anyone_can_withdraw_for_recipient_at: u64,
    topup_amount: u64,
) -> (r: Result<(Stream, u64), StreamError>)
    ensures
        ({
            let terms = Stream::created(
                false,
                mint,
                sender,
                recipient,
                name,
                starts_at,
                ends_at,
                initial_amount,
                flow_interval,
                flow_rate,
                (Permission { enabled: sender_can_cancel, active_from: sender_can_cancel_at }),
                (Permission {
                    enabled: sender_can_change_sender,
                    active_from: sender_can_change_sender_at,
                }),
                (Permission { enabled: sender_can_pause, active_from: sender_can_pause_at }),
                (Permission {
                    enabled: recipient_can_resume_pause_by_sender,
                    active_from: recipient_can_resume_pause_by_sender_at,
                }),
                (Permission {
                    enabled: anyone_can_withdraw_for_recipient,
                    active_from: anyone_can_withdraw_for_recipient_at,
                }),
                seed,
                bump,
            );
            match r {
                Ok((stream, amount)) => {
                    &&& create_non_prepaid_refusal(escrow_is_rent_exempt, terms, topup_amount)
                        is None
                    &&& amount == topup_amount
                    &&& stream == terms.after_deposit(amount as int)
                    &&& stream.wf()
                    &&& stream.escrowed() == amount
                },
                Err(e) => create_non_prepaid_refusal(escrow_is_rent_exempt, terms, topup_amount)
                    == Some(e),
            }
        }),
{
    let mut stream = match create(
        escrow_is_rent_exempt,
        false,
        mint,
        sender,
        recipient,
        name,
        starts_at,
        ends_at,
        initial_amount,
        flow_interval,
        flow_rate,
        sender_can_cancel,
        sender_can_cancel_at,
        sender_can_change_sender,
        sender_can_change_sender_at,
        sender_can_pause,
        sender_can_pause_at,
        recipient_can_resume_pause_by_sender,
        recipient_can_resume_pause_by_sender_at,
        anyone_can_withdraw_for_recipient,
        anyone_can_withdraw_for_recipient_at,
        seed,
        bump,
    ) {
        Ok(stream) => stream,
        Err(e) => {
            return Err(e);
        },
    };
    match stream.initialize_non_prepaid(topup_amount) {
        Ok(_) => Ok((stream, topup_amount)),
        Err(e) => Err(e),
    }
}

/// Creates an activity, active from the start.
pub fn create_activity(
    creator: Address,
    stake_mint: Address,
    reward_mint: Address,
    opt_reward_mint: Address,
    bump: u8,
    seed: u64,
    name: String,
    starts_at: u64,
    ends_at: u64,
    reward_expires_at: u64,
    duration: u64,
    min_amount: u64,
    flow_rate: u64,
) -> (activity: Activity)
    ensures
        activity == (Activity {
            is_active: true,
            creator,
            stake_mint,
            reward_mint,
            opt_reward_mint,
            starts_at,
            ends_at,
            reward_expires_at,
            min_amount,
            duration,
            flow_rate,
            seed,
            bump,
            name,
        }),
{
    create_activity_internal(
        creator,
        stake_mint,
        reward_mint,
        opt_reward_mint,
        bump,
        true,
        seed,
        name,
        starts_at,
        ends_at,
        reward_expires_at,
        duration,
        min_amount,
        flow_rate,
    )
}

/// Writes the reward board of an activity: its rewarders, in the order given. None if
/// more than `MAX_REWARDERS` rewarders are given.
pub fn create_rewards_board(activity_key: Address, rewarders: Vec<Rewarder>) -> (board: Option<
    RewardBoard,
>)
    ensures
        match board {
            Some(board) => {
                &&& rewarders@.len() <= MAX_REWARDERS
                &&& board.activity_key == activity_key
                &&& board.rewarders == rewarders
                &&& board.wf()
            },
            None => rewarders@.len() > MAX_REWARDERS,
        },
{
    RewardBoard::initialize(activity_key, rewarders)
}

/// Opens a reward pool for an activity. Returns its record and the amount that the
/// creator must put into the pool's escrow, which is `total_supply`. Refused with
/// `WrongRewardMint` unless `mint` is one of the activity's two reward mints.
pub fn create_distributor(
    activity: &Activity,
    activity_key: Address,
    creator: Address,
    mint: Address,
    bump: u8,
    root: Digest,
    total_supply: u64,
) -> (r: Result<(Distributor, u64), StreamError>)
    ensures
        match r {
            Ok((distributor, amount)) => {
                &&& activity.pays_in(mint)
                &&& amount == total_supply
                &&& distributor == (Distributor {
                    activity_key,
                    bump,
                    root,
                    creator_key: creator,
                    total_claimed: 0,
                    total_supply,
                    mint,
                })
                &&& distributor.wf()
            },
            Err(e) => e == StreamError::WrongRewardMint && !activity.pays_in(mint),
        },
{
    match Distributor::initialize(activity, activity_key, mint, creator, bump, root, total_supply) {
        Ok(distributor) => Ok((distributor, total_supply)),
        Err(e) => Err(e),
    }
}

/// The proof leads from the leaf of the entry `(index, claimer, amount)` to `root`.
pub open spec fn proves_entry(
    proof: Seq<Digest>,
    root: Digest,
    index: u64,
    claimer: Address,
    amount: u64,
) -> bool {
    fold_proof(digest_bytes(proof), leaf_of(index, claimer@, amount)) == root@
}

/// Pays the entry `(index, claimer, amount)` from a reward pool, if `proof` leads from
/// its leaf to the pool's root and the claimer has not been paid before. Returns the
/// payment of `amount` from the pool's escrow to the signer, who is the claimer, signed
/// with the pool's seeds.
///
/// Refused with `AlreadyClaimed` if `status` says that the claimer has been paid, with
/// `MaxClaim` if the pool does not hold `amount`, with `InvalidRecipient` if `mint` is
/// not the pool's mint, and with `InvalidMerkleProof` if the proof does not lead to the
/// root.
pub fn claim(
    distributor: &mut Distributor,
    status: &mut Status,
    claimer: Address,
    mint: &Address,
    index: u64,
    amount: u64,
    proof: Vec<Digest>,
) -> (r: Result<Settlement, StreamError>)
    requires
        old(distributor).wf(),
    ensures
        final(distributor).wf(),
        ({
            let proved = proves_entry(proof@, old(distributor).root, index, claimer, amount);
            match r {
                Ok(settlement) => {
                    &&& old(distributor).claim_refusal(*old(status), *mint, amount, proved) is None
                    &&& settlement.pays(
                        old(distributor).authority_seeds(),
                        leg(Destination::Signer, amount),
                    )
                    &&& *final(distributor) == old(distributor).after_claim(amount)
                    &&& *final(status) == (Status { is_claimed: true, amount, claimer })
                    &&& final(distributor).unclaimed() == old(distributor).unclaimed() - amount
                },
                Err(e) => {
                    &&& old(distributor).claim_refusal(*old(status), *mint, amount, proved)
                        == Some(e)
                    &&& *final(distributor) == *old(distributor)
                    &&& *final(status) == *old(status)
                },
            }
        }),
{
    let leaf: Digest = leaf_hash(index, &claimer, amount);
    let proved: bool = verify(proof, distributor.root, leaf);
    match distributor.record_claim(status, claimer, mint, amount, proved) {
        Ok(paid) => Ok(
            Settlement {
                signer_seeds: distributor.signer_seeds(),
                transfers: single_transfer(Destination::Signer, paid),
            },
        ),
        Err(e) => Err(e),
    }
}

/// Closes a reward pool. Returns the payment of what is left in it from the pool's
/// escrow to the signer, signed with the pool's seeds. Refused with `MaxClaim` if
/// nothing is left.
pub fn recycle_reward(distributor: &mut Distributor) -> (r: Result<Settlement, StreamError>)
    requires
        old(distributor).wf(),
    ensures
        final(distributor).wf(),
        match r {
            Ok(settlement) => {
                &&& old(distributor).total_claimed < old(distributor).total_supply
                &&& settlement.pays(
                    old(distributor).authority_seeds(),
                    leg(Destination::Signer, old(distributor).unclaimed() as u64),
                )
                &&& *final(distributor) == (Distributor {
                    total_claimed: old(distributor).total_supply,
                    ..*old(distributor)
                })
                &&& final(distributor).exhausted()
            },
            Err(e) => {
                &&& e == StreamError::MaxClaim
                &&& old(distributor).total_claimed >= old(distributor).total_supply
                &&& *final(distributor) == *old(distributor)
            },
        },
{
    match distributor.recycle() {
        Ok(amount) => Ok(
            Settlement {
                signer_seeds: distributor.signer_seeds(),
                transfers: single_transfer(Destination::Signer, amount),
            },
        ),
        Err(e) => Err(e),
    }
}

/// Cancels a stream. Returns the payments that empty its escrow: to the sender, to the
/// signer and to the recipient, in this order, zero amounts left out, all signed with
/// the stream's seeds. Refused as `Stream::cancel` refuses.
pub fn cancel(
    stream: &mut Stream,
    signer: &Address,
    recipient: Address,
    now: u64,
    cleanup_share: u64,
) -> (r: Result<Settlement, StreamError>)
    requires
        old(stream).wf(),
    ensures
        final(stream).wf(),
        match r {
            Ok(settlement) => {
                &&& old(stream).cancel_refusal(*signer, recipient, now) is None
                &&& settlement.pays(
                    old(stream).authority_seeds(),
                    cancel_legs(old(stream).cancel_settlement(*signer, now, cleanup_share)),
                )
                &&& *final(stream) == old(stream).after_cancel(
                    old(stream).cancel_settlement(*signer, now, cleanup_share),
                )
                &&& total_of(settlement.transfers@) == old(stream).escrowed()
                &&& final(stream).escrowed() == 0
            },
            Err(e) => {
                &&& old(stream).cancel_refusal(*signer, recipient, now) == Some(e)
                &&& *final(stream) == *old(stream)
            },
        },
{
    match stream.cancel(signer, recipient, now, cleanup_share) {
        Ok(paid) => Ok(
            Settlement { signer_seeds: stream.signer_seeds(), transfers: cancel_transfers(&paid) },
        ),
        Err(e) => Err(e),
    }
}

/// Hands the sender's unused deposit back once a non-prepaid stream has ended. Returns
/// the payment to the sender, signed with the stream's seeds; nothing is paid when
/// nothing is left over. Refused as `Stream::withdraw_excess_topup_non_prepaid_ended`
/// refuses.
pub fn withdraw_excess_topup_non_prepaid_ended(stream: &mut Stream, now: u64) -> (r: Result<
    Settlement,
    StreamError,
>)
    requires
        old(stream).wf(),
    ensures
        final(stream).wf(),
        match r {
            Ok(settlement) => {
                &&& old(stream).may_withdraw_excess(now)
                &&& settlement.pays(
                    old(stream).authority_seeds(),
                    leg(Destination::Sender, old(stream).excess(now) as u64),
                )
                &&& *final(stream) == old(stream).after_withdraw_excess(now)
                &&& final(stream).escrowed() == old(stream).escrowed() - old(stream).excess(now)
            },
            Err(e) => e == StreamError::Unauthorized && !old(stream).may_withdraw_excess(now)
                && *final(stream) == *old(stream),
        },
{
    match stream.withdraw_excess_topup_non_prepaid_ended(now) {
        Ok(amount) => Ok(
            Settlement {
                signer_seeds: stream.signer_seeds(),
                transfers: single_transfer(Destination::Sender, amount),
            },
        ),
        Err(e) => Err(e),
    }
}

/// Adds to the escrow of a non-prepaid stream. Returns the amount that the signer must
/// put into the escrow, which is `topup_amount`. Refused as `Stream::topup_non_prepaid`
/// refuses.
pub fn topup_non_prepaid(stream: &mut Stream, topup_amount: u64) -> (r: Result<u64, StreamError>)
    requires
        old(stream).wf(),
    ensures
        final(stream).wf(),
        match r {
            Ok(amount) => {
                &&& old(stream).topup_refusal(topup_amount) is None
                &&& amount == topup_amount
                &&& *final(stream) == old(stream).after_deposit(topup_amount as int)
                &&& final(stream).escrowed() == old(stream).escrowed() + amount
            },
            Err(e) => {
                &&& old(stream).topup_refusal(topup_amount) == Some(e)
                &&& *final(stream) == *old(stream)
            },
        },
{
    match stream.topup_non_prepaid(topup_amount) {
        Ok(_) => Ok(topup_amount),
        Err(e) => Err(e),
    }
}

/// Hands a non-prepaid stream on to a new sender. Refused with `Unauthorized` unless
/// the signer is the sender and the stream lets the sender hand it on at `now`.
pub fn change_sender_non_prepaid(
    stream: &mut Stream,
    sender: &Address,
    new_sender: Address,
    now: u64,
) -> (r: Result<(), StreamError>)
    requires
        old(stream).wf(),
    ensures
        final(stream).wf(),
        match r {
            Ok(_) => {
                &&& old(stream).may_change_sender(*sender, now)
                &&& *final(stream) == old(stream).after_change_sender(new_sender)
            },
            Err(e) => e == StreamError::Unauthorized && !old(stream).may_change_sender(
                *sender,
                now,
            ) && *final(stream) == *old(stream),
        },
{
    stream.change_sender_non_prepaid(sender, new_sender, now)
}

/// Pays out what the recipient has earned and not yet received. Returns the payment to
/// the recipient, signed with the stream's seeds; nothing is paid when nothing can be.
/// Refused as `Stream::withdraw` refuses.
pub fn withdraw(stream: &mut Stream, signer: &Address, recipient: Address, now: u64) -> (r:
    Result<Settlement, StreamError>)
    requires
        old(stream).wf(),
    ensures
        final(stream).wf(),
        match r {
            Ok(settlement) => {
                &&& old(stream).withdraw_refusal(*signer, recipient, false, now) is None
                &&& settlement.pays(
                    old(stream).authority_seeds(),
                    leg(Destination::Recipient, old(stream).withdrawable(now) as u64),
                )
                &&& *final(stream) == old(stream).after_withdraw(now)
                &&& final(stream).escrowed() == old(stream).escrowed() - old(stream).withdrawable(
                    now,
                )
            },
            Err(e) => old(stream).withdraw_refusal(*signer, recipient, false, now) == Some(e)
                && *final(stream) == *old(stream),
        },
{
    match stream.withdraw(signer, recipient, now) {
        Ok(amount) => Ok(
            Settlement {
                signer_seeds: stream.signer_seeds(),
                transfers: single_transfer(Destination::Recipient, amount),
            },
        ),
        Err(e) => Err(e),
    }
}

/// Pays out what the recipient has earned and not yet received, and makes
/// `new_recipient` the recipient unless it is the zero address. Returns the payment to
/// `recipient`, signed with the stream's seeds; nothing is paid when nothing can be.
/// Refused as `Stream::withdraw_and_change_recipient` refuses.
pub fn withdraw_and_change_recipient(
    stream: &mut Stream,
    signer: &Address,
    recipient: Address,
    new_recipient: Address,
    now: u64,
) -> (r: Result<Settlement, StreamError>)
    requires
        old(stream).wf(),
    ensures
        final(stream).wf(),
        match r {
            Ok(settlement) => {
                &&& old(stream).withdraw_refusal(
                    *signer,
                    recipient,
                    new_recipient@ != crate::address::zero_address(),
                    now,
                ) is None
                &&& settlement.pays(
                    old(stream).authority_seeds(),
                    leg(Destination::Recipient, old(stream).withdrawable(now) as u64),
                )
                &&& *final(stream) == old(stream).after_withdraw(now).after_change_recipient(
                    new_recipient,
                )
                &&& final(stream).escrowed() == old(stream).escrowed() - old(stream).withdrawable(
                    now,
                )
            },
            Err(e) => old(stream).withdraw_refusal(
                *signer,
                recipient,
                new_recipient@ != crate::address::zero_address(),
                now,
            ) == Some(e) && *final(stream) == *old(stream),
        },
{
    match stream.withdraw_and_change_recipient(signer, recipient, new_recipient, now) {
        Ok(amount) => Ok(
            Settlement {
                signer_seeds: stream.signer_seeds(),
                transfers: single_transfer(Destination::Recipient, amount),
            },
        ),
        Err(e) => Err(e),
    }
}

/// Pauses a non-prepaid stream. Refused with `Unauthorized` unless the signer may
/// pause it at `now`.
pub fn pause_non_prepaid(stream: &mut Stream, signer: &Address, now: u64) -> (r: Result<
    (),
    StreamError,
>)
    requires
        old(stream).wf(),
    ensures
        final(stream).wf(),
        match r {
            Ok(_) => {
                &&& old(stream).may_pause(*signer, now)
                &&& *final(stream) == old(stream).after_pause(*signer, now)
            },
            Err(e) => e == StreamError::Unauthorized && !old(stream).may_pause(*signer, now)
                && *final(stream) == *old(stream),
        },
{
    stream.pause_non_prepaid(signer, now)
}

/// Resumes a paused non-prepaid stream. Refused with `Unauthorized` unless the signer
/// may resume it at `now`.
pub fn resume_non_prepaid(stream: &mut Stream, signer: &Address, now: u64) -> (r: Result<
    (),
    StreamError,
>)
    requires
        old(stream).wf(),
    ensures
        final(stream).wf(),
        match r {
            Ok(_) => {
                &&& old(stream).may_resume(*signer, now)
                &&& *final(stream) == old(stream).after_resume(now)
            },
            Err(e) => e == StreamError::Unauthorized && !old(stream).may_resume(*signer, now)
                && *final(stream) == *old(stream),
        },
{
    stream.resume_non_prepaid(signer, now)
}

} // verus!
