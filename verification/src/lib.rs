//! Real-time money streaming and Merkle-proof reward distribution, as rules on plain
//! records.
//!
//! A `Stream` pays a recipient at a fixed rate per interval out of an escrow; a
//! `Distributor` pays claimers out of a reward pool against a Merkle root. Every
//! operation here reads the records and the time it is given, decides, updates the
//! books and says what is to be moved between accounts. Moving it is the caller's part.

pub mod address;
pub mod error;
pub mod merkle;
pub mod state;
pub mod superstream;
pub mod transfer;
pub mod utils;

use vstd::prelude::*;
use crate::address::Address;
use crate::error::StreamError;
use crate::state::activity::Activity;
use crate::state::stream::Permission;
use crate::state::stream::Stream;

verus! {

/// First seed of a stream's derived address: the bytes of `stream`.
pub const STREAM_ACCOUNT_SEED: [u8; 6] = [115, 116, 114, 101, 97, 109];

/// First seed of an activity's derived address: the bytes of `activity`.
pub const ACTIVITY_ACCOUNT_SEED: [u8; 8] = [97, 99, 116, 105, 118, 105, 116, 121];

/// First seed of a distributor's derived address: the bytes of `distributor`.
pub const DISTRIBUTOR_ACCOUNT_SEED: [u8; 11] = [
    100,
    105,
    115,
    116,
    114,
    105,
    98,
    117,
    116,
    111,
    114,
];

/// First seed of a claim status's derived address: the bytes of `status`.
pub const STATUS_ACCOUNT_SEED: [u8; 6] = [115, 116, 97, 116, 117, 115];

/// The notice that a prepaid stream has been created.
#[derive(Debug, Clone, Copy)]
pub struct CreateStreamEvent {
    pub sender: Address,
    pub recipient: Address,
    pub stream: Address,
    pub amount: u64,
}

/// Why a stream with the terms of `terms` cannot be created, if it cannot: the escrow
/// account must be rent exempt, and the terms must be valid.
pub open spec fn create_refusal(escrow_is_rent_exempt: bool, terms: Stream) -> Option<
    StreamError,
> {
    if !escrow_is_rent_exempt {
        Some(StreamError::EscrowNotRentExempt)
    } else {
        terms.creation_refusal()
    }
}

/// Creates the record of a stream whose escrow account has been found rent exempt or
/// not. Refused with `EscrowNotRentExempt` if it has not, and else as
/// `Stream::initialize` refuses.
pub fn create(
    escrow_is_rent_exempt: bool,
    is_prepaid: bool,
    mint: Address,
    sender: Address,
    recipient: Address,
    name: String,
    starts_at: u64,
    ends_at: u64,
    initial_amount: u64,
    flow_interval: u64,
    flow_rate: u64,
    sender_can_cancel: bool,
    sender_can_cancel_at: u64,
    sender_can_change_sender: bool,
    sender_can_change_sender_at: u64,
    sender_can_pause: bool,
    sender_can_pause_at: u64,
    recipient_can_resume_pause_by_sender: bool,
    recipient_can_resume_pause_by_sender_at: u64,
    anyone_can_withdraw_for_recipient: bool,
    anyone_can_withdraw_for_recipient_at: u64,
    seed: u64,
    bump: u8,
) -> (r: Result<Stream, StreamError>)
    ensures
        ({
            let terms = Stream::created(
                is_prepaid,
                mint,
                sender,
                recipient,
                name,
                starts_at,
                ends_at,
                initial_amount,
                flow_interval,
                flow_rate,
                (Permission { enabled: sender_can_cancel, active_from: sender_can_cancel_at }),
                (Permission {
                    enabled: sender_can_change_sender,
                    active_from: sender_can_change_sender_at,
                }),
                (Permission { enabled: sender_can_pause, active_from: sender_can_pause_at }),
                (Permission {
                    enabled: recipient_can_resume_pause_by_sender,
                    active_from: recipient_can_resume_pause_by_sender_at,
                }),
                (Permission {
                    enabled: anyone_can_withdraw_for_recipient,
                    active_from: anyone_can_withdraw_for_recipient_at,
                }),
                seed,
                bump,
            );
            match r {
                Ok(stream) => create_refusal(escrow_is_rent_exempt, terms) is None && stream
                    == terms && stream.wf() && stream.is_fresh(),
                Err(e) => create_refusal(escrow_is_rent_exempt, terms) == Some(e),
            }
        }),
{
    if !escrow_is_rent_exempt {
        return Err(StreamError::EscrowNotRentExempt);
    }
    Stream::initialize(
        is_prepaid,
        mint,
        sender,
        recipient,
        name,
        starts_at,
        ends_at,
        initial_amount,
        flow_interval,
        flow_rate,
        sender_can_cancel,
        sender_can_cancel_at,
        sender_can_change_sender,
        sender_can_change_sender_at,
        sender_can_pause,
        sender_can_pause_at,
        recipient_can_resume_pause_by_sender,
        recipient_can_resume_pause_by_sender_at,
        anyone_can_withdraw_for_recipient,
        anyone_can_withdraw_for_recipient_at,
        seed,
        bump,
    )
}

/// Writes the record of an activity.
pub fn create_activity_internal(
    creator: Address,
    stake_mint: Address,
    reward_mint: Address,
    opt_reward_mint: Address,
    bump: u8,
    is_active: bool,
    seed: u64,
    name: String,
    starts_at: u64,
    ends_at: u64,
    reward_expires_at: u64,
    duration: u64,
    min_amount: u64,
    flow_rate: u64,
) -> (activity: Activity)
    ensures
        activity == (Activity {
            is_active,
            creator,
            stake_mint,
            reward_mint,
            opt_reward_mint,
            starts_at,
            ends_at,
            reward_expires_at,
            min_amount,
            duration,
            flow_rate,
            seed,
            bump,
            name,
        }),
{
    Activity::initialize(
        is_active,
        creator,
        stake_mint,
        reward_mint,
        opt_reward_mint,
        starts_at,
        ends_at,
        reward_expires_at,
        min_amount,
        duration,
        flow_rate,
        seed,
        bump,
        name,
    )
}

} // verus!
