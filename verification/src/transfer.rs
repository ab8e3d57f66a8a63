use vstd::prelude::*;
use vstd::bytes::spec_u64_to_le_bytes;
use vstd::bytes::u64_to_le_bytes;
use vstd::slice::slice_to_vec;
use vstd::utf8::encode_utf8;
use crate::address::Address;
use crate::state::distributor::Distributor;
use crate::state::stream::CancelTransferParams;
use crate::state::stream::Stream;
use crate::ACTIVITY_ACCOUNT_SEED;
use crate::DISTRIBUTOR_ACCOUNT_SEED;
use crate::STATUS_ACCOUNT_SEED;
use crate::STREAM_ACCOUNT_SEED;

verus! {

/// Whose account a payment from a stream's escrow goes to.
#[derive(Debug, Clone, Copy, PartialEq, Eq, Structural)]
pub enum Destination {
    Sender,
    Signer,
    Recipient,
}

/// One payment from an escrow.
#[derive(Debug, Clone, Copy, PartialEq, Eq, Structural)]
pub struct Transfer {
    pub destination: Destination,
    pub amount: u64,
}

/// What is to be paid out of one escrow, and the seeds that sign for all of it.
#[derive(Debug, Clone, PartialEq, Eq)]
pub struct Settlement {
    pub signer_seeds: Vec<Vec<u8>>,
    pub transfers: Vec<Transfer>,
}

impl Settlement {
    /// The settlement makes the payments `transfers`, in this order, each of them
    /// signed with `seeds`.
    pub open spec fn pays(self, seeds: Seq<Seq<u8>>, transfers: Seq<Transfer>) -> bool {
        seed_bytes(self.signer_seeds@) == seeds && self.transfers@ == transfers
    }
}

/// The payment of `amount` to `destination`; none when the amount is zero.
pub open spec fn payment(destination: Destination, amount: u64) -> Option<Transfer> {
    if amount == 0 {
        None
    } else {
        Some(Transfer { destination, amount })
    }
}

/// The payment of `amount` to `destination`, as a list: empty when the amount is zero.
pub open spec fn leg(destination: Destination, amount: u64) -> Seq<Transfer> {
    match payment(destination, amount) {
        Some(transfer) => seq![transfer],
        None => Seq::empty(),
    }
}

/// The payments that empty the escrow of a cancelled stream: to the sender, to the
/// signer and to the recipient, in this order, zero amounts left out.
pub open spec fn cancel_legs(paid: CancelTransferParams) -> Seq<Transfer> {
    leg(Destination::Sender, paid.transfer_amount_sender) + leg(
        Destination::Signer,
        paid.transfer_amount_signer,
    ) + leg(Destination::Recipient, paid.transfer_amount_recipient)
}

/// The sum of the amounts of a list of payments.
pub open spec fn total_of(transfers: Seq<Transfer>) -> int
    decreases transfers.len(),
{
    if transfers.len() == 0 {
        0
    } else {
        total_of(transfers.drop_last()) + transfers.last().amount
    }
}

/// The payment of `amount` from an escrow to `destination`; none when the amount is
/// zero.
pub fn transfer_from_escrow(destination: Destination, amount: u64) -> (transfer: Option<
    Transfer,
>)
    ensures
        transfer == payment(destination, amount),
{
    if amount == 0 {
        None
    } else {
        Some(Transfer { destination, amount })
    }
}

/// Lists the one payment of `amount` from an escrow to `destination`; nothing when the
/// amount is zero.
pub fn single_transfer(destination: Destination, amount: u64) -> (transfers: Vec<Transfer>)
    ensures
        transfers@ == leg(destination, amount),
{
    let mut transfers: Vec<Transfer> = Vec::new();
    if let Some(t) = transfer_from_escrow(destination, amount) {
        transfers.push(t);
    }
    transfers
}

/// Lists the payments that empty the escrow of a cancelled stream.
pub fn cancel_transfers(paid: &CancelTransferParams) -> (transfers: Vec<Transfer>)
    ensures
        transfers@ == cancel_legs(*paid),
        total_of(transfers@) == paid.transfer_amount_sender + paid.transfer_amount_signer
            + paid.transfer_amount_recipient,
        forall|i: int| 0 <= i < transfers@.len() ==> transfers@[i].amount > 0,
{
    let mut transfers: Vec<Transfer> = Vec::new();
    if let Some(t) = transfer_from_escrow(Destination::Sender, paid.transfer_amount_sender) {
        transfers.push(t);
        proof {
            lemma_total_push(Seq::empty(), t);
        }
    }
    let ghost after_sender = transfers@;
    if let Some(t) = transfer_from_escrow(Destination::Signer, paid.transfer_amount_signer) {
        transfers.push(t);
        proof {
            lemma_total_push(after_sender, t);
        }
    }
    let ghost after_signer = transfers@;
    if let Some(t) = transfer_from_escrow(
        Destination::Recipient,
        paid.transfer_amount_recipient,
    ) {
        transfers.push(t);
        proof {
            lemma_total_push(after_signer, t);
        }
    }
    transfers
}

/// One more payment adds its amount to the sum.
proof fn lemma_total_push(transfers: Seq<Transfer>, t: Transfer)
    ensures
        total_of(transfers.push(t)) == total_of(transfers) + t.amount,
{
    assert(transfers.push(t).drop_last() =~= transfers);
}

/// The seeds from which a stream's address is derived: the stream tag, the stream's
/// seed number in little-endian bytes, its mint and the bytes of its name.
pub open spec fn stream_seeds(seed: u64, mint: Seq<u8>, name: Seq<char>) -> Seq<Seq<u8>> {
    seq![STREAM_ACCOUNT_SEED@, spec_u64_to_le_bytes(seed), mint, encode_utf8(name)]
}

/// The seeds from which an activity's address is derived: the activity tag, the
/// activity's seed number in little-endian bytes, its stake mint and the bytes of its
/// name.
pub open spec fn activity_seeds(seed: u64, stake_mint: Seq<u8>, name: Seq<char>) -> Seq<
    Seq<u8>,
> {
    seq![ACTIVITY_ACCOUNT_SEED@, spec_u64_to_le_bytes(seed), stake_mint, encode_utf8(name)]
}

/// The seeds from which a distributor's address is derived: the distributor tag, the
/// address of its activity and its mint.
pub open spec fn distributor_seeds(activity_key: Seq<u8>, mint: Seq<u8>) -> Seq<Seq<u8>> {
    seq![DISTRIBUTOR_ACCOUNT_SEED@, activity_key, mint]
}

/// The seeds from which the address of a claimer's status is derived: the status tag,
/// the distributor's address and the claimer's.
pub open spec fn status_seeds(distributor_key: Seq<u8>, claimer: Seq<u8>) -> Seq<Seq<u8>> {
    seq![STATUS_ACCOUNT_SEED@, distributor_key, claimer]
}

/// The byte strings held by a list of byte vectors.
pub open spec fn seed_bytes(seeds: Seq<Vec<u8>>) -> Seq<Seq<u8>> {
    seeds.map_values(|s: Vec<u8>| s@)
}

/// Builds the seeds of a stream's address.
pub fn stream_address_seeds(seed: u64, mint: &Address, name: &str) -> (seeds: Vec<Vec<u8>>)
    ensures
        seed_bytes(seeds@) == stream_seeds(seed, mint@, name@),
{
    let mut seeds: Vec<Vec<u8>> = Vec::new();
    seeds.push(slice_to_vec(STREAM_ACCOUNT_SEED.as_slice()));
    seeds.push(u64_to_le_bytes(seed));
    seeds.push(slice_to_vec(mint.as_slice()));
    seeds.push(slice_to_vec(name.as_bytes()));
    seeds
}

/// Builds the seeds of an activity's address.
pub fn activity_address_seeds(seed: u64, stake_mint: &Address, name: &str) -> (seeds: Vec<
    Vec<u8>,
>)
    ensures
        seed_bytes(seeds@) == activity_seeds(seed, stake_mint@, name@),
{
    let mut seeds: Vec<Vec<u8>> = Vec::new();
    seeds.push(slice_to_vec(ACTIVITY_ACCOUNT_SEED.as_slice()));
    seeds.push(u64_to_le_bytes(seed));
    seeds.push(slice_to_vec(stake_mint.as_slice()));
    seeds.push(slice_to_vec(name.as_bytes()));
    seeds
}

/// Builds the seeds of a distributor's address.
pub fn distributor_address_seeds(activity_key: &Address, mint: &Address) -> (seeds: Vec<Vec<u8>>)
    ensures
        seed_bytes(seeds@) == distributor_seeds(activity_key@, mint@),
{
    let mut seeds: Vec<Vec<u8>> = Vec::new();
    seeds.push(slice_to_vec(DISTRIBUTOR_ACCOUNT_SEED.as_slice()));
    seeds.push(slice_to_vec(activity_key.as_slice()));
    seeds.push(slice_to_vec(mint.as_slice()));
    seeds
}

/// Builds the seeds of the address of a claimer's status.
pub fn status_address_seeds(distributor_key: &Address, claimer: &Address) -> (seeds: Vec<Vec<u8>>)
    ensures
        seed_bytes(seeds@) == status_seeds(distributor_key@, claimer@),
{
    let mut seeds: Vec<Vec<u8>> = Vec::new();
    seeds.push(slice_to_vec(STATUS_ACCOUNT_SEED.as_slice()));
    seeds.push(slice_to_vec(distributor_key.as_slice()));
    seeds.push(slice_to_vec(claimer.as_slice()));
    seeds
}

/// Makes signer seeds of address seeds: the bump is added as a last seed of one byte.
/// Every payment from one escrow is authorised with the same signer seeds.
pub fn with_bump(address_seeds: Vec<Vec<u8>>, bump: u8) -> (seeds: Vec<Vec<u8>>)
    ensures
        seed_bytes(seeds@) == seed_bytes(address_seeds@).push(seq![bump]),
{
    let mut seeds = address_seeds;
    let mut last: Vec<u8> = Vec::new();
    last.push(bump);
    seeds.push(last);
    seeds
}

impl Stream {
    /// The seeds with which the stream signs every payment from its escrow: the seeds
    /// of its address and its bump.
    pub open spec fn authority_seeds(self) -> Seq<Seq<u8>> {
        stream_seeds(self.seed, self.mint@, self.name@).push(seq![self.bump])
    }

    /// Builds the seeds with which the stream signs every payment from its escrow.
    pub fn signer_seeds(&self) -> (seeds: Vec<Vec<u8>>)
        ensures
            seed_bytes(seeds@) == self.authority_seeds(),
    {
        with_bump(stream_address_seeds(self.seed, &self.mint, self.name.as_str()), self.bump)
    }
}

impl Distributor {
    /// The seeds with which the distributor signs every payment from its escrow: the
    /// seeds of its address and its bump.
    pub open spec fn authority_seeds(self) -> Seq<Seq<u8>> {
        distributor_seeds(self.activity_key@, self.mint@).push(seq![self.bump])
    }

    /// Builds the seeds with which the distributor signs every payment from its escrow.
    pub fn signer_seeds(&self) -> (seeds: Vec<Vec<u8>>)
        ensures
            seed_bytes(seeds@) == self.authority_seeds(),
    {
        with_bump(distributor_address_seeds(&self.activity_key, &self.mint), self.bump)
    }
}

} // verus!
