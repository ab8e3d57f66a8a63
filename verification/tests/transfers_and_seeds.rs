use superstream::error::StreamError;
use superstream::state::CancelTransferParams;
use superstream::state::Distributor;
use superstream::state::RewardBoard;
use superstream::state::Rewarder;
use superstream::state::Stream;
use superstream::superstream::create_rewards_board;
use superstream::transfer::activity_address_seeds;
use superstream::transfer::cancel_transfers;
use superstream::transfer::distributor_address_seeds;
use superstream::transfer::single_transfer;
use superstream::transfer::status_address_seeds;
use superstream::transfer::stream_address_seeds;
use superstream::transfer::transfer_from_escrow;
use superstream::transfer::with_bump;
use superstream::transfer::Destination;
use superstream::transfer::Transfer;
use superstream::utils::amount_between;
use superstream::utils::elapsed_intervals;
use superstream::ACTIVITY_ACCOUNT_SEED;
use superstream::DISTRIBUTOR_ACCOUNT_SEED;
use superstream::STATUS_ACCOUNT_SEED;
use superstream::STREAM_ACCOUNT_SEED;

#[test]
fn seed_tags_spell_the_record_kinds() {
    assert_eq!(&STREAM_ACCOUNT_SEED, b"stream");
    assert_eq!(&ACTIVITY_ACCOUNT_SEED, b"activity");
    assert_eq!(&DISTRIBUTOR_ACCOUNT_SEED, b"distributor");
    assert_eq!(&STATUS_ACCOUNT_SEED, b"status");
}

#[test]
fn stream_seeds_are_tag_seed_mint_name() {
    let mint = [5u8; 32];
    let seeds = stream_address_seeds(0x0102_0304_0506_0708, &mint, "päy");
    assert_eq!(
        seeds,
        vec![
            b"stream".to_vec(),
            vec![8, 7, 6, 5, 4, 3, 2, 1],
            mint.to_vec(),
            "päy".as_bytes().to_vec(),
        ]
    );
    let signer = with_bump(seeds.clone(), 251);
    assert_eq!(signer.len(), 5);
    assert_eq!(&signer[..4], &seeds[..]);
    assert_eq!(signer[4], vec![251]);
}

#[test]
fn other_records_have_their_own_seeds() {
    let a = [1u8; 32];
    let b = [2u8; 32];
    assert_eq!(
        activity_address_seeds(258, &a, "run"),
        vec![b"activity".to_vec(), vec![2, 1, 0, 0, 0, 0, 0, 0], a.to_vec(), b"run".to_vec()]
    );
    assert_eq!(
        distributor_address_seeds(&a, &b),
        vec![b"distributor".to_vec(), a.to_vec(), b.to_vec()]
    );
    assert_eq!(status_address_seeds(&a, &b), vec![b"status".to_vec(), a.to_vec(), b.to_vec()]);
    assert_eq!(
        with_bump(distributor_address_seeds(&a, &b), 7),
        vec![b"distributor".to_vec(), a.to_vec(), b.to_vec(), vec![7]]
    );
    assert_eq!(with_bump(Vec::new(), 0), vec![vec![0u8]]);
}

#[test]
fn zero_amounts_are_not_transferred() {
    assert_eq!(transfer_from_escrow(Destination::Sender, 0), None);
    assert_eq!(
        transfer_from_escrow(Destination::Signer, 1),
        Some(Transfer { destination: Destination::Signer, amount: 1 })
    );
    assert_eq!(single_transfer(Destination::Recipient, 0), Vec::new());
    assert_eq!(
        single_transfer(Destination::Recipient, 4),
        vec![Transfer { destination: Destination::Recipient, amount: 4 }]
    );
    let none = CancelTransferParams {
        transfer_amount_sender: 0,
        transfer_amount_signer: 0,
        transfer_amount_recipient: 0,
    };
    assert_eq!(cancel_transfers(&none), Vec::new());
    let middle = CancelTransferParams { transfer_amount_signer: 9, ..none };
    assert_eq!(
        cancel_transfers(&middle),
        vec![Transfer { destination: Destination::Signer, amount: 9 }]
    );
}

#[test]
fn cancel_pays_sender_then_signer_then_recipient() {
    let paid = CancelTransferParams {
        transfer_amount_sender: 3,
        transfer_amount_signer: 2,
        transfer_amount_recipient: 1,
    };
    assert_eq!(
        cancel_transfers(&paid),
        vec![
            Transfer { destination: Destination::Sender, amount: 3 },
            Transfer { destination: Destination::Signer, amount: 2 },
            Transfer { destination: Destination::Recipient, amount: 1 },
        ]
    );
}

#[test]
fn intervals_are_counted_whole() {
    assert_eq!(elapsed_intervals(0, 100, 10), 10);
    assert_eq!(elapsed_intervals(0, 109, 10), 10);
    assert_eq!(elapsed_intervals(1, 100, 10), 9);
    assert_eq!(elapsed_intervals(100, 100, 10), 0);
    assert_eq!(elapsed_intervals(101, 100, 10), 0);
    assert_eq!(elapsed_intervals(u64::MAX, 0, 1), 0);
    assert_eq!(elapsed_intervals(0, u64::MAX, 1), u64::MAX);
    assert_eq!(elapsed_intervals(0, 9, 10), 0);
}

#[test]
fn flow_is_intervals_times_rate() {
    assert_eq!(amount_between(0, 100, 10, 5), Ok(50));
    assert_eq!(amount_between(50, 100, 7, 3), Ok(21));
    assert_eq!(amount_between(100, 50, 7, 3), Ok(0));
    assert_eq!(amount_between(0, 100, 10, 0), Ok(0));
    assert_eq!(amount_between(0, u64::MAX, 1, 1), Ok(u64::MAX));
    assert_eq!(amount_between(0, u64::MAX, 1, 2), Err(StreamError::ArithmeticOverflow));
    assert_eq!(amount_between(0, 4, 2, u64::MAX), Err(StreamError::ArithmeticOverflow));
    assert_eq!(amount_between(0, 3, 2, u64::MAX), Ok(u64::MAX));
}

#[test]
fn records_sign_with_their_address_seeds_and_bump() {
    let stream = Stream::initialize(
        false,
        [5u8; 32],
        [6u8; 32],
        [7u8; 32],
        String::from("lease"),
        10,
        20,
        0,
        1,
        1,
        false,
        0,
        false,
        0,
        false,
        0,
        false,
        0,
        false,
        0,
        513,
        249,
    )
    .unwrap();
    assert_eq!(
        stream.signer_seeds(),
        vec![
            b"stream".to_vec(),
            vec![1, 2, 0, 0, 0, 0, 0, 0],
            vec![5u8; 32],
            b"lease".to_vec(),
            vec![249],
        ]
    );
    let distributor = Distributor {
        activity_key: [8u8; 32],
        bump: 3,
        root: [0u8; 32],
        creator_key: [9u8; 32],
        total_claimed: 0,
        total_supply: 1,
        mint: [10u8; 32],
    };
    assert_eq!(
        distributor.signer_seeds(),
        vec![b"distributor".to_vec(), vec![8u8; 32], vec![10u8; 32], vec![3]]
    );
}

#[test]
fn reward_board_lists_at_most_a_hundred_rewarders() {
    let line = |i: u8| Rewarder { rewarder: [i; 32], reward: i as u64, opt_reward: 2 * i as u64 };
    let hundred: Vec<Rewarder> = (0..100).map(line).collect();
    let board = create_rewards_board([1u8; 32], hundred.clone()).unwrap();
    assert_eq!(board.activity_key, [1u8; 32]);
    assert_eq!(board.rewarders.len(), 100);
    assert_eq!(board.rewarders[99].rewarder, [99u8; 32]);
    assert_eq!(board.rewarders[99].reward, 99);
    assert_eq!(board.rewarders[99].opt_reward, 198);
    assert_eq!(board.rewarders[0].rewarder, [0u8; 32]);
    let mut more = hundred;
    more.push(line(100));
    assert!(create_rewards_board([1u8; 32], more.clone()).is_none());
    assert!(RewardBoard::initialize([1u8; 32], more).is_none());
    assert_eq!(RewardBoard::initialize([2u8; 32], Vec::new()).unwrap().rewarders.len(), 0);
}
