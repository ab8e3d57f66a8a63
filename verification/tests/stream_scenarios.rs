use superstream::error::StreamError;
use superstream::state::Stream;
use superstream::state::DEPOSIT_AMOUNT_PERIOD_IN_SECS;
use superstream::superstream::cancel;
use superstream::superstream::create_non_prepaid;
use superstream::superstream::create_prepaid;
use superstream::superstream::topup_non_prepaid;
use superstream::superstream::withdraw;
use superstream::superstream::withdraw_excess_topup_non_prepaid_ended;
use superstream::transfer::Destination;
use superstream::transfer::Settlement;
use superstream::transfer::Transfer;

const MINT: [u8; 32] = [1u8; 32];
const SENDER: [u8; 32] = [2u8; 32];
const RECIPIENT: [u8; 32] = [3u8; 32];
const STRANGER: [u8; 32] = [4u8; 32];
const STREAM_KEY: [u8; 32] = [9u8; 32];

fn signed(name: &str, transfers: Vec<Transfer>) -> Settlement {
    Settlement {
        signer_seeds: vec![
            b"stream".to_vec(),
            vec![7, 0, 0, 0, 0, 0, 0, 0],
            MINT.to_vec(),
            name.as_bytes().to_vec(),
            vec![254],
        ],
        transfers,
    }
}

fn scenario_prepaid() -> (Stream, u64) {
    let (stream, amount, event) = create_prepaid(
        true,
        STREAM_KEY,
        MINT,
        SENDER,
        254,
        7,
        String::from("salary"),
        RECIPIENT,
        0,
        1000,
        0,
        10,
        5,
        true,
        0,
        false,
        0,
        false,
        0,
        false,
        0,
        false,
        0,
    )
    .unwrap();
    assert_eq!(event.sender, SENDER);
    assert_eq!(event.recipient, RECIPIENT);
    assert_eq!(event.stream, STREAM_KEY);
    assert_eq!(event.amount, 0);
    (stream, amount)
}

fn scenario_non_prepaid(topup: u64) -> Result<(Stream, u64), StreamError> {
    create_non_prepaid(
        true,
        MINT,
        SENDER,
        254,
        7,
        String::from("rent"),
        RECIPIENT,
        0,
        100_000,
        0,
        10,
        5,
        true,
        0,
        true,
        0,
        true,
        0,
        false,
        0,
        false,
        0,
        topup,
    )
}

#[test]
fn prepaid_stream_escrows_its_lifetime_amount() {
    let (stream, amount) = scenario_prepaid();
    assert_eq!(amount, 500);
    assert_eq!(stream.total_deposited, 500);
    assert_eq!(stream.escrow_balance(), 500);
    assert!(stream.is_well_formed());
}

#[test]
fn prepaid_stream_accrues_five_per_ten_seconds() {
    let (stream, _) = scenario_prepaid();
    assert_eq!(stream.accrued_amount(100), Ok(50));
    assert_eq!(stream.accrued_amount(99), Ok(45));
    assert_eq!(stream.accrued_amount(0), Ok(0));
    assert_eq!(stream.accrued_amount(1000), Ok(500));
    assert_eq!(stream.accrued_amount(5000), Ok(500));
}

#[test]
fn withdraw_at_hundred_pays_fifty_then_nothing() {
    let (mut stream, _) = scenario_prepaid();
    let first = withdraw(&mut stream, &RECIPIENT, RECIPIENT, 100).unwrap();
    assert_eq!(
        first,
        signed("salary", vec![Transfer { destination: Destination::Recipient, amount: 50 }])
    );
    assert_eq!(stream.withdrawn_amount, 50);
    let second = withdraw(&mut stream, &RECIPIENT, RECIPIENT, 100).unwrap();
    assert_eq!(second, signed("salary", Vec::new()));
    assert_eq!(stream.withdrawn_amount, 50);
    assert_eq!(stream.escrow_balance(), 450);
}

#[test]
fn withdraw_method_returns_amounts() {
    let (mut stream, _) = scenario_prepaid();
    assert_eq!(stream.withdraw(&RECIPIENT, RECIPIENT, 100), Ok(50));
    assert_eq!(stream.withdraw(&RECIPIENT, RECIPIENT, 100), Ok(0));
    assert_eq!(stream.withdraw(&RECIPIENT, RECIPIENT, 250), Ok(75));
    assert_eq!(stream.withdrawn_amount, 125);
}

#[test]
fn minimum_deposit_is_the_flow_of_the_deposit_period() {
    assert_eq!(DEPOSIT_AMOUNT_PERIOD_IN_SECS, 8 * 60 * 60);
    let (stream, amount) = scenario_non_prepaid(14_400).unwrap();
    assert_eq!(amount, 14_400);
    assert_eq!(stream.total_deposited, 14_400);
    assert_eq!(scenario_non_prepaid(14_399).err(), Some(StreamError::DepositTooLow));
}

#[test]
fn topup_above_the_maximum_is_refused() {
    let (mut stream, _) = scenario_non_prepaid(14_400).unwrap();
    assert_eq!(stream.max_topup(), 35_600);
    assert_eq!(topup_non_prepaid(&mut stream, 35_601), Err(StreamError::ExceedsMaxTopup));
    assert_eq!(stream.total_deposited, 14_400);
    assert_eq!(topup_non_prepaid(&mut stream, 35_600), Ok(35_600));
    assert_eq!(stream.total_deposited, 50_000);
    assert_eq!(topup_non_prepaid(&mut stream, 1), Err(StreamError::ExceedsMaxTopup));
    assert_eq!(topup_non_prepaid(&mut stream, 0), Ok(0));
}

#[test]
fn first_deposit_above_the_lifetime_amount_is_refused() {
    assert_eq!(scenario_non_prepaid(50_001).err(), Some(StreamError::DepositTooHigh));
    assert!(scenario_non_prepaid(50_000).is_ok());
}

#[test]
fn escrow_is_what_came_in_less_what_went_out() {
    let (mut stream, deposit) = scenario_non_prepaid(20_000).unwrap();
    let mut escrow: u64 = deposit;
    escrow += topup_non_prepaid(&mut stream, 5_000).unwrap();
    assert_eq!(stream.escrow_balance(), escrow);
    for t in withdraw(&mut stream, &RECIPIENT, RECIPIENT, 10_000).unwrap().transfers {
        assert_eq!(t.amount, 5_000);
        escrow -= t.amount;
    }
    assert_eq!(stream.escrow_balance(), escrow);
    stream.pause_non_prepaid(&RECIPIENT, 20_000).unwrap();
    stream.resume_non_prepaid(&RECIPIENT, 30_000).unwrap();
    for t in withdraw(&mut stream, &RECIPIENT, RECIPIENT, 40_000).unwrap().transfers {
        assert_eq!(t.amount, 10_000);
        escrow -= t.amount;
    }
    assert_eq!(escrow, 10_000);
    assert_eq!(stream.escrow_balance(), escrow);
    let refund = withdraw_excess_topup_non_prepaid_ended(&mut stream, 100_000).unwrap();
    assert_eq!(refund, signed("rent", Vec::new()));
    let settlement = cancel(&mut stream, &RECIPIENT, RECIPIENT, 100_000, 0).unwrap();
    let paid: u64 = settlement.transfers.iter().map(|t| t.amount).sum();
    assert_eq!(paid, escrow);
    assert_eq!(stream.escrow_balance(), 0);
    assert_eq!(
        stream.total_deposited,
        stream.withdrawn_amount + stream.refunded_amount + stream.cleanup_reward_amount
    );
}

#[test]
fn unused_deposit_goes_back_to_the_sender_after_the_end() {
    let (mut stream, _) = scenario_non_prepaid(50_000).unwrap();
    stream.pause_non_prepaid(&RECIPIENT, 10_000).unwrap();
    stream.resume_non_prepaid(&RECIPIENT, 30_000).unwrap();
    assert_eq!(
        withdraw_excess_topup_non_prepaid_ended(&mut stream, 99_999),
        Err(StreamError::Unauthorized)
    );
    let refund = withdraw_excess_topup_non_prepaid_ended(&mut stream, 100_000).unwrap();
    assert_eq!(
        refund,
        signed("rent", vec![Transfer { destination: Destination::Sender, amount: 10_000 }])
    );
    assert_eq!(stream.refunded_amount, 10_000);
    assert_eq!(
        withdraw_excess_topup_non_prepaid_ended(&mut stream, 100_001),
        Ok(signed("rent", Vec::new()))
    );
    assert_eq!(stream.withdraw(&RECIPIENT, RECIPIENT, 100_000), Ok(40_000));
    assert_eq!(stream.escrow_balance(), 0);
}

#[test]
fn anyone_can_cancel_an_insolvent_stream() {
    let (mut solvent, _) = scenario_non_prepaid(14_400).unwrap();
    assert_eq!(
        cancel(&mut solvent, &STRANGER, RECIPIENT, 20_000, 1_000),
        Err(StreamError::Unauthorized)
    );
    assert!(!solvent.is_cancelled);
    let (mut stream, _) = scenario_non_prepaid(14_400).unwrap();
    let settlement = cancel(&mut stream, &STRANGER, RECIPIENT, 40_000, 1_000).unwrap();
    assert_eq!(
        settlement,
        signed(
            "rent",
            vec![
                Transfer { destination: Destination::Signer, amount: 1_440 },
                Transfer { destination: Destination::Recipient, amount: 12_960 },
            ]
        )
    );
    assert!(stream.is_cancelled);
    assert_eq!(stream.withdrawn_amount, 12_960);
    assert_eq!(stream.cleanup_reward_amount, 1_440);
    assert_eq!(stream.refunded_amount, 0);
    assert_eq!(stream.escrow_balance(), 0);
}

#[test]
fn cancel_splits_the_escrow_between_recipient_and_sender() {
    let (mut stream, _) = scenario_prepaid();
    let settlement = cancel(&mut stream, &SENDER, RECIPIENT, 300, 5_000).unwrap();
    assert_eq!(
        settlement,
        signed(
            "salary",
            vec![
                Transfer { destination: Destination::Sender, amount: 350 },
                Transfer { destination: Destination::Recipient, amount: 150 },
            ]
        )
    );
    assert_eq!(
        cancel(&mut stream, &SENDER, RECIPIENT, 301, 5_000),
        Err(StreamError::Unauthorized)
    );
    assert_eq!(
        cancel(&mut stream, &RECIPIENT, RECIPIENT, 301, 5_000),
        Err(StreamError::Unauthorized)
    );
    assert_eq!(stream.withdraw(&RECIPIENT, RECIPIENT, 400), Err(StreamError::Unauthorized));
}
