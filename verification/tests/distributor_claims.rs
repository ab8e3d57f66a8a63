use anchor_lang::solana_program::keccak::hashv;
use superstream::error::StreamError;
use superstream::state::Activity;
use superstream::state::Distributor;
use superstream::state::Status;
use superstream::superstream::claim;
use superstream::superstream::create_activity;
use superstream::superstream::create_distributor;
use superstream::superstream::recycle_reward;
use superstream::transfer::Destination;
use superstream::transfer::Settlement;
use superstream::transfer::Transfer;

const CREATOR: [u8; 32] = [10u8; 32];
const STAKE_MINT: [u8; 32] = [11u8; 32];
const REWARD_MINT: [u8; 32] = [12u8; 32];
const OPT_REWARD_MINT: [u8; 32] = [13u8; 32];
const OTHER_MINT: [u8; 32] = [14u8; 32];
const ACTIVITY_KEY: [u8; 32] = [15u8; 32];

fn pool_parent(a: [u8; 32], b: [u8; 32]) -> [u8; 32] {
    if a <= b {
        hashv(&[&a, &b]).0
    } else {
        hashv(&[&b, &a]).0
    }
}

fn pool_leaf(index: u64, claimer: [u8; 32], amount: u64) -> [u8; 32] {
    hashv(&[&index.to_le_bytes(), &claimer, &amount.to_le_bytes()]).0
}

fn claimer(i: u8) -> [u8; 32] {
    [100 + i; 32]
}

/// Four entries: 300, 400, 200 and 500, for claimers 0 to 3.
struct Pool {
    root: [u8; 32],
    proofs: Vec<Vec<[u8; 32]>>,
    amounts: Vec<u64>,
}

fn pool() -> Pool {
    let amounts = vec![300u64, 400, 200, 500];
    let leaves: Vec<[u8; 32]> =
        (0..4).map(|i| pool_leaf(i as u64, claimer(i as u8), amounts[i])).collect();
    let left = pool_parent(leaves[0], leaves[1]);
    let right = pool_parent(leaves[2], leaves[3]);
    let root = pool_parent(left, right);
    let proofs = vec![
        vec![leaves[1], right],
        vec![leaves[0], right],
        vec![leaves[3], left],
        vec![leaves[2], left],
    ];
    Pool { root, proofs, amounts }
}

fn to_signer(amount: u64) -> Settlement {
    let transfers = if amount == 0 {
        Vec::new()
    } else {
        vec![Transfer { destination: Destination::Signer, amount }]
    };
    Settlement {
        signer_seeds: vec![
            b"distributor".to_vec(),
            ACTIVITY_KEY.to_vec(),
            REWARD_MINT.to_vec(),
            vec![252],
        ],
        transfers,
    }
}

fn activity() -> Activity {
    create_activity(
        CREATOR,
        STAKE_MINT,
        REWARD_MINT,
        OPT_REWARD_MINT,
        253,
        1,
        String::from("spring"),
        10,
        20,
        30,
        5,
        1,
        2,
    )
}

fn distributor(total_supply: u64) -> Distributor {
    let (distributor, amount) = create_distributor(
        &activity(),
        ACTIVITY_KEY,
        CREATOR,
        REWARD_MINT,
        252,
        pool().root,
        total_supply,
    )
    .unwrap();
    assert_eq!(amount, total_supply);
    distributor
}

#[test]
fn activity_keeps_what_it_was_created_with() {
    let a = activity();
    assert!(a.is_active);
    assert_eq!(a.creator, CREATOR);
    assert_eq!(a.stake_mint, STAKE_MINT);
    assert_eq!(a.reward_mint, REWARD_MINT);
    assert_eq!(a.opt_reward_mint, OPT_REWARD_MINT);
    assert_eq!(a.bump, 253);
    assert_eq!(a.seed, 1);
    assert_eq!(a.name, "spring");
    assert_eq!((a.starts_at, a.ends_at, a.reward_expires_at), (10, 20, 30));
    assert_eq!((a.duration, a.min_amount, a.flow_rate), (5, 1, 2));
    assert!(a.accepts_reward_mint(&REWARD_MINT));
    assert!(a.accepts_reward_mint(&OPT_REWARD_MINT));
    assert!(!a.accepts_reward_mint(&STAKE_MINT));
}

#[test]
fn distributor_takes_either_reward_mint_only() {
    let a = activity();
    let d = distributor(1000);
    assert_eq!(d.activity_key, ACTIVITY_KEY);
    assert_eq!(d.creator_key, CREATOR);
    assert_eq!(d.mint, REWARD_MINT);
    assert_eq!(d.bump, 252);
    assert_eq!(d.root, pool().root);
    assert_eq!((d.total_claimed, d.total_supply), (0, 1000));
    assert!(create_distributor(&a, ACTIVITY_KEY, CREATOR, OPT_REWARD_MINT, 252, [0u8; 32], 5)
        .is_ok());
    assert_eq!(
        create_distributor(&a, ACTIVITY_KEY, CREATOR, OTHER_MINT, 252, [0u8; 32], 5).err(),
        Some(StreamError::WrongRewardMint)
    );
    assert_eq!(
        create_distributor(&a, ACTIVITY_KEY, CREATOR, STAKE_MINT, 252, [0u8; 32], 5).err(),
        Some(StreamError::WrongRewardMint)
    );
}

#[test]
fn valid_claim_is_paid_and_recorded() {
    let p = pool();
    let mut d = distributor(1000);
    let mut status = Status::unclaimed();
    let paid = claim(&mut d, &mut status, claimer(1), &REWARD_MINT, 1, 400, p.proofs[1].clone());
    assert_eq!(paid, Ok(to_signer(400)));
    assert_eq!(d.total_claimed, 400);
    assert!(status.is_claimed);
    assert_eq!(status.amount, 400);
    assert_eq!(status.claimer, claimer(1));
}

#[test]
fn second_claim_of_a_claimer_is_refused() {
    let p = pool();
    let mut d = distributor(1000);
    let mut status = Status::unclaimed();
    assert_eq!(
        claim(&mut d, &mut status, claimer(0), &REWARD_MINT, 0, 300, p.proofs[0].clone()),
        Ok(to_signer(300))
    );
    assert_eq!(
        claim(&mut d, &mut status, claimer(0), &REWARD_MINT, 0, 300, p.proofs[0].clone()),
        Err(StreamError::AlreadyClaimed)
    );
    assert_eq!(
        claim(&mut d, &mut status, claimer(0), &REWARD_MINT, 0, 1, p.proofs[1].clone()),
        Err(StreamError::AlreadyClaimed)
    );
    assert_eq!(
        claim(&mut d, &mut status, claimer(0), &OTHER_MINT, 9, 5000, Vec::new()),
        Err(StreamError::AlreadyClaimed)
    );
    assert_eq!(d.total_claimed, 300);
    assert_eq!(status.amount, 300);
}

#[test]
fn wrong_claims_are_refused_and_change_nothing() {
    let p = pool();
    let mut d = distributor(450);
    let mut status = Status::unclaimed();
    assert_eq!(
        claim(&mut d, &mut status, claimer(3), &REWARD_MINT, 3, 500, p.proofs[3].clone()),
        Err(StreamError::MaxClaim)
    );
    assert_eq!(
        claim(&mut d, &mut status, claimer(1), &OTHER_MINT, 1, 400, p.proofs[1].clone()),
        Err(StreamError::InvalidRecipient)
    );
    assert_eq!(
        claim(&mut d, &mut status, claimer(1), &REWARD_MINT, 1, 401, p.proofs[1].clone()),
        Err(StreamError::InvalidMerkleProof)
    );
    assert_eq!(
        claim(&mut d, &mut status, claimer(1), &REWARD_MINT, 2, 400, p.proofs[1].clone()),
        Err(StreamError::InvalidMerkleProof)
    );
    assert_eq!(
        claim(&mut d, &mut status, claimer(2), &REWARD_MINT, 1, 400, p.proofs[1].clone()),
        Err(StreamError::InvalidMerkleProof)
    );
    assert_eq!(
        claim(&mut d, &mut status, claimer(1), &REWARD_MINT, 1, 400, p.proofs[0].clone()),
        Err(StreamError::InvalidMerkleProof)
    );
    assert_eq!(d.total_claimed, 0);
    assert!(!status.is_claimed);
    assert_eq!(status.amount, 0);
    assert_eq!(
        claim(&mut d, &mut status, claimer(1), &REWARD_MINT, 1, 400, p.proofs[1].clone()),
        Ok(to_signer(400))
    );
    let mut next = Status::unclaimed();
    assert_eq!(
        claim(&mut d, &mut next, claimer(0), &REWARD_MINT, 0, 300, p.proofs[0].clone()),
        Err(StreamError::MaxClaim)
    );
}

#[test]
fn recycle_pays_the_remainder_once_and_closes_the_pool() {
    let p = pool();
    let mut d = distributor(1000);
    let mut paid: u64 = 0;
    for i in [0usize, 1] {
        let mut status = Status::unclaimed();
        let settlement = claim(
            &mut d,
            &mut status,
            claimer(i as u8),
            &REWARD_MINT,
            i as u64,
            p.amounts[i],
            p.proofs[i].clone(),
        )
        .unwrap();
        assert_eq!(settlement, to_signer(p.amounts[i]));
        paid += settlement.transfers[0].amount;
    }
    assert_eq!(paid, 700);
    assert_eq!(d.total_claimed, 700);
    assert!(!d.is_exhausted());
    assert_eq!(recycle_reward(&mut d), Ok(to_signer(300)));
    assert_eq!(d.total_claimed, 1000);
    assert!(d.is_exhausted());
    let mut status = Status::unclaimed();
    assert_eq!(
        claim(&mut d, &mut status, claimer(2), &REWARD_MINT, 2, 200, p.proofs[2].clone()),
        Err(StreamError::MaxClaim)
    );
    assert!(!status.is_claimed);
    assert_eq!(recycle_reward(&mut d), Err(StreamError::MaxClaim));
    assert_eq!(d.total_claimed, 1000);
}

#[test]
fn booked_claim_follows_the_verdict_on_the_proof() {
    let mut d = distributor(1000);
    let mut status = Status::unclaimed();
    assert_eq!(
        d.record_claim(&mut status, claimer(0), &REWARD_MINT, 10, false),
        Err(StreamError::InvalidMerkleProof)
    );
    assert_eq!(d.record_claim(&mut status, claimer(0), &REWARD_MINT, 10, true), Ok(10));
    assert_eq!(
        d.record_claim(&mut status, claimer(0), &REWARD_MINT, 10, true),
        Err(StreamError::AlreadyClaimed)
    );
    let mut other = Status::unclaimed();
    assert_eq!(
        d.record_claim(&mut other, claimer(1), &REWARD_MINT, 991, true),
        Err(StreamError::MaxClaim)
    );
    assert_eq!(d.record_claim(&mut other, claimer(1), &REWARD_MINT, 990, true), Ok(990));
    assert_eq!(d.recycle(), Err(StreamError::MaxClaim));
}
