use raffle::constants::{ENTRANTS_SIZE, TIME_BUFFER};
use raffle::error::{ErrorKind, RaffleError};
use raffle::instructions::buy_raffle_tickets::handle_buy_raffle_tickets;
use raffle::instructions::claim_raffle_prize::{handle_claim_raffle_prize, Payout};
use raffle::instructions::close_entrants::handle_close_entrants;
use raffle::instructions::create_raffle::handle_create_raffle;
use raffle::instructions::reveal_raffle_winner::handle_reveal_raffle_winners;
use raffle::state::{Entrants, Pubkey, Raffle};
use raffle::{buy_tickets, claim_raffle_prize, close_entrants, create_raffle, reveal_raffle_winners};

const AUTHORITY: [u8; 32] = [1u8; 32];
const LEDGER: [u8; 32] = [2u8; 32];
const BUYER: [u8; 32] = [3u8; 32];
const OTHER: [u8; 32] = [4u8; 32];
const END: i64 = 1000;
const RENT: u64 = 1_000_000;

fn key(b: [u8; 32]) -> Pubkey {
    Pubkey::new_from_array(b)
}

fn blockhashes(count: u8, hash: [u8; 32]) -> Vec<u8> {
    let mut data = vec![count, 0, 0, 0, 0, 0, 0, 0];
    data.extend_from_slice(&hash);
    data
}

fn open_raffle(max: u32, price: u64, fee: u8) -> (Raffle, Entrants) {
    create_raffle(key(AUTHORITY), key(LEDGER), 255, 100, END, price, max, fee).unwrap()
}

#[test]
fn end_to_end_single_buyer() {
    let (mut raffle, mut entrants) = open_raffle(10, 1000, 5);
    assert_eq!(raffle.authority, key(AUTHORITY));
    assert_eq!(raffle.entrants, key(LEDGER));
    assert_eq!(raffle.randomness, None);
    assert!(!raffle.claimed_prizes);
    assert_eq!(entrants.total, 0);
    assert_eq!(entrants.max, 10);

    let paid = buy_tickets(&mut raffle, &mut entrants, key(BUYER), 10, 500);
    assert_eq!(paid, Ok(9500));
    assert_eq!(entrants.total, 10);
    assert_eq!(raffle.accumulated_fees, 500);

    let data = blockhashes(1, [0u8; 32]);
    let index = reveal_raffle_winners(&mut raffle, &entrants, &data, END + TIME_BUFFER).unwrap();
    assert!(index < 10);
    assert_eq!(index, 1);
    assert_eq!(raffle.randomness, Some(index));

    let winner = entrants.entrants[index as usize];
    let escrow = RENT + 9500;
    let payout = claim_raffle_prize(&mut raffle, &entrants, winner, key(AUTHORITY), escrow, RENT);
    assert_eq!(payout, Ok(Payout { prize_lamports: 9000, fee_lamports: 500 }));
    assert!(raffle.claimed_prizes);

    let again = claim_raffle_prize(&mut raffle, &entrants, winner, key(AUTHORITY), RENT + 500, RENT);
    assert_eq!(again, Err(RaffleError::PrizeAlreadyClaimed));
    assert_eq!(again.unwrap_err().kind(), ErrorKind::StateConflict);

    assert_eq!(close_entrants(&raffle, key(AUTHORITY), END + TIME_BUFFER), Ok(()));
}

#[test]
fn create_rejects_each_bad_parameter() {
    let a = key(AUTHORITY);
    let l = key(LEDGER);
    assert_eq!(
        handle_create_raffle(a, l, 0, END, END, 10, 10, 5).unwrap_err(),
        RaffleError::InvalidEndTimestamp
    );
    assert_eq!(
        handle_create_raffle(a, l, 0, END + 1, END, 10, 10, 5).unwrap_err(),
        RaffleError::InvalidEndTimestamp
    );
    assert_eq!(
        handle_create_raffle(a, l, 0, 100, END, 0, 10, 5).unwrap_err(),
        RaffleError::InvalidTicketPrice
    );
    assert_eq!(
        handle_create_raffle(a, l, 0, 100, END, 10, 0, 5).unwrap_err(),
        RaffleError::InvalidMaxEntrants
    );
    assert_eq!(
        handle_create_raffle(a, l, 0, 100, END, 10, ENTRANTS_SIZE + 1, 5).unwrap_err(),
        RaffleError::InvalidMaxEntrants
    );
    assert_eq!(
        handle_create_raffle(a, l, 0, 100, END, 10, 10, 0).unwrap_err(),
        RaffleError::InvalidAuthorityFeePercent
    );
    let e = handle_create_raffle(a, l, 0, 100, END, 10, 10, 101).unwrap_err();
    assert_eq!(e, RaffleError::InvalidAuthorityFeePercent);
    assert_eq!(e.kind(), ErrorKind::InvalidConfiguration);
    assert!(handle_create_raffle(a, l, 0, 100, END, 10, ENTRANTS_SIZE, 100).is_ok());
}

#[test]
fn fees_truncate_per_purchase() {
    let (mut r1, mut e1) = open_raffle(10, 30, 5);
    for _ in 0..3 {
        assert_eq!(handle_buy_raffle_tickets(&mut r1, &mut e1, key(BUYER), 1, 200), Ok(29));
    }
    assert_eq!(e1.total, 3);
    assert_eq!(r1.accumulated_fees, 3);

    let (mut r2, mut e2) = open_raffle(10, 30, 5);
    assert_eq!(handle_buy_raffle_tickets(&mut r2, &mut e2, key(BUYER), 3, 200), Ok(86));
    assert_eq!(e2.total, 3);
    assert_eq!(r2.accumulated_fees, 4);
}

#[test]
fn purchases_fill_ledger_in_order() {
    let (mut raffle, mut entrants) = open_raffle(5, 100, 10);
    assert_eq!(buy_tickets(&mut raffle, &mut entrants, key(BUYER), 2, END), Ok(180));
    assert_eq!(buy_tickets(&mut raffle, &mut entrants, key(OTHER), 3, END), Ok(270));
    assert_eq!(entrants.total, 5);
    assert_eq!(raffle.accumulated_fees, 50);
    let expected = vec![key(BUYER), key(BUYER), key(OTHER), key(OTHER), key(OTHER)];
    assert_eq!(entrants.entrants, expected);
    assert_eq!(entrants.get(4), Some(key(OTHER)));
    assert_eq!(entrants.get(5), None);
}

#[test]
fn full_ledger_refuses_purchase() {
    let (mut raffle, mut entrants) = open_raffle(2, 100, 10);
    assert!(buy_tickets(&mut raffle, &mut entrants, key(BUYER), 2, 200).is_ok());
    let before_raffle = raffle;
    let before_entrants = entrants.clone();
    for amount in [0u32, 1, 5] {
        let r = buy_tickets(&mut raffle, &mut entrants, key(OTHER), amount, 200);
        assert_eq!(r, Err(RaffleError::NotEnoughTicketsLeft));
        assert_eq!(r.unwrap_err().kind(), ErrorKind::CapacityExceeded);
        assert_eq!(raffle, before_raffle);
        assert_eq!(entrants, before_entrants);
    }
}

#[test]
fn purchase_beyond_capacity_changes_nothing() {
    let (mut raffle, mut entrants) = open_raffle(3, 100, 10);
    let r = buy_tickets(&mut raffle, &mut entrants, key(BUYER), 4, 200);
    assert_eq!(r, Err(RaffleError::NotEnoughTicketsLeft));
    assert_eq!(entrants.total, 0);
    assert!(entrants.entrants.is_empty());
    assert_eq!(raffle.accumulated_fees, 0);
}

#[test]
fn purchase_after_end_is_refused() {
    let (mut raffle, mut entrants) = open_raffle(3, 100, 10);
    let r = buy_tickets(&mut raffle, &mut entrants, key(BUYER), 1, END + 1);
    assert_eq!(r, Err(RaffleError::RaffleEnded));
    assert_eq!(r.unwrap_err().kind(), ErrorKind::TimingViolation);
    assert_eq!(buy_tickets(&mut raffle, &mut entrants, key(BUYER), 1, END), Ok(90));
}

#[test]
fn purchase_overflow_is_refused() {
    let (mut raffle, mut entrants) = open_raffle(10, u64::MAX, 10);
    let r = buy_tickets(&mut raffle, &mut entrants, key(BUYER), 2, 200);
    assert_eq!(r, Err(RaffleError::InvalidCalculation));
    assert_eq!(r.unwrap_err().kind(), ErrorKind::ArithmeticOverflow);
    assert_eq!(entrants.total, 0);

    let (mut raffle, mut entrants) = open_raffle(10, u64::MAX / 2, 5);
    let r = buy_tickets(&mut raffle, &mut entrants, key(BUYER), 1, 200);
    assert_eq!(r, Err(RaffleError::InvalidCalculation));
    assert_eq!(entrants.total, 0);
    assert_eq!(raffle.accumulated_fees, 0);

    let (mut raffle, mut entrants) = open_raffle(10, 100, 10);
    raffle.accumulated_fees = u64::MAX;
    let r = buy_tickets(&mut raffle, &mut entrants, key(BUYER), 1, 200);
    assert_eq!(r, Err(RaffleError::InvalidCalculation));
    assert_eq!(entrants.total, 0);
}

#[test]
fn append_stops_at_capacity() {
    let mut entrants = Entrants::with_capacity(1);
    assert_eq!(entrants.append(key(BUYER)), Ok(()));
    assert_eq!(entrants.append(key(OTHER)), Err(RaffleError::NotEnoughTicketsLeft));
    assert_eq!(entrants.total, 1);
    assert_eq!(entrants.entrants, vec![key(BUYER)]);
}

#[test]
fn reveal_happens_once() {
    let (mut raffle, mut entrants) = open_raffle(10, 100, 10);
    buy_tickets(&mut raffle, &mut entrants, key(BUYER), 7, 200).unwrap();
    let seed: Vec<u8> = (0u8..32).collect();
    let mut hash = [0u8; 32];
    hash.copy_from_slice(&seed);
    let data = blockhashes(3, hash);
    let first = handle_reveal_raffle_winners(&mut raffle, &entrants, &data, END + TIME_BUFFER);
    assert_eq!(first, Ok(4));
    let second = handle_reveal_raffle_winners(&mut raffle, &entrants, &blockhashes(1, [9u8; 32]), END + 500);
    assert_eq!(second, Err(RaffleError::WinnersAlreadyDrawn));
    assert_eq!(second.unwrap_err().kind(), ErrorKind::StateConflict);
    assert_eq!(raffle.randomness, Some(4));
}

#[test]
fn reveal_refusals() {
    let (mut raffle, mut entrants) = open_raffle(10, 100, 10);
    let data = blockhashes(1, [0u8; 32]);
    assert_eq!(
        handle_reveal_raffle_winners(&mut raffle, &entrants, &data, END + TIME_BUFFER - 1),
        Err(RaffleError::RaffleStillRunning)
    );
    assert_eq!(
        handle_reveal_raffle_winners(&mut raffle, &entrants, &data, END + TIME_BUFFER),
        Err(RaffleError::InvalidCalculation)
    );
    buy_tickets(&mut raffle, &mut entrants, key(BUYER), 1, 200).unwrap();
    let empty_record = blockhashes(0, [7u8; 32]);
    let r = handle_reveal_raffle_winners(&mut raffle, &entrants, &empty_record, END + TIME_BUFFER);
    assert_eq!(r, Err(RaffleError::InvalidAccountData));
    assert_eq!(r.unwrap_err().kind(), ErrorKind::DataUnavailable);
    let short = vec![1u8, 0, 0];
    assert_eq!(
        handle_reveal_raffle_winners(&mut raffle, &entrants, &short, END + TIME_BUFFER),
        Err(RaffleError::InvalidAccountData)
    );
    assert_eq!(raffle.randomness, None);

    let mut late = raffle;
    late.end_timestamp = i64::MAX - 1;
    assert_eq!(
        handle_reveal_raffle_winners(&mut late, &entrants, &data, i64::MAX),
        Err(RaffleError::InvalidCalculation)
    );
    assert_eq!(handle_reveal_raffle_winners(&mut raffle, &entrants, &data, END + TIME_BUFFER), Ok(0));
}

fn drawn_raffle() -> (Raffle, Entrants) {
    let (mut raffle, mut entrants) = open_raffle(10, 1000, 5);
    buy_tickets(&mut raffle, &mut entrants, key(OTHER), 1, 200).unwrap();
    buy_tickets(&mut raffle, &mut entrants, key(BUYER), 9, 200).unwrap();
    let data = blockhashes(1, [0u8; 32]);
    assert_eq!(reveal_raffle_winners(&mut raffle, &entrants, &data, END + TIME_BUFFER), Ok(1));
    (raffle, entrants)
}

#[test]
fn claim_by_non_winner_is_refused() {
    let (mut raffle, entrants) = drawn_raffle();
    let before = raffle;
    let r = claim_raffle_prize(&mut raffle, &entrants, key(OTHER), key(AUTHORITY), RENT + 9500, RENT);
    assert_eq!(r, Err(RaffleError::NotWinner));
    assert_eq!(r.unwrap_err().kind(), ErrorKind::AuthorizationFailure);
    assert_eq!(raffle, before);
}

#[test]
fn claim_refusals() {
    let (mut open, entrants) = open_raffle(10, 1000, 5);
    assert_eq!(
        handle_claim_raffle_prize(&mut open, &entrants, key(BUYER), RENT, RENT),
        Err(RaffleError::WinnerNotDrawn)
    );

    let (mut raffle, entrants) = drawn_raffle();
    assert_eq!(
        claim_raffle_prize(&mut raffle, &entrants, key(BUYER), key(OTHER), RENT + 9500, RENT),
        Err(RaffleError::Unauthorized)
    );
    assert_eq!(
        handle_claim_raffle_prize(&mut raffle, &entrants, key(BUYER), RENT + 499, RENT),
        Err(RaffleError::InvalidCalculation)
    );
    assert_eq!(
        handle_claim_raffle_prize(&mut raffle, &entrants, key(BUYER), RENT - 1, RENT),
        Err(RaffleError::InvalidCalculation)
    );
    assert_eq!(
        handle_claim_raffle_prize(&mut raffle, &entrants, key(BUYER), RENT + 500, RENT),
        Err(RaffleError::NoPrize)
    );
    assert!(!raffle.claimed_prizes);

    let mut stray = raffle;
    stray.randomness = Some(10);
    assert_eq!(
        handle_claim_raffle_prize(&mut stray, &entrants, key(BUYER), RENT + 9500, RENT),
        Err(RaffleError::NotWinner)
    );

    assert_eq!(
        handle_claim_raffle_prize(&mut raffle, &entrants, key(BUYER), RENT + 501, RENT),
        Ok(Payout { prize_lamports: 1, fee_lamports: 500 })
    );
}

#[test]
fn teardown_requires_claim() {
    let (raffle, _) = drawn_raffle();
    for now in [0i64, END, END + TIME_BUFFER, END + 10_000] {
        assert!(handle_close_entrants(&raffle, key(AUTHORITY), now).is_err());
    }
    let r = handle_close_entrants(&raffle, key(AUTHORITY), END + TIME_BUFFER);
    assert_eq!(r, Err(RaffleError::PrizeNotClaimed));
    assert_eq!(r.unwrap_err().kind(), ErrorKind::StateConflict);
}

#[test]
fn teardown_refusals() {
    let (raffle, _) = open_raffle(10, 1000, 5);
    assert_eq!(
        handle_close_entrants(&raffle, key(OTHER), END + TIME_BUFFER),
        Err(RaffleError::Unauthorized)
    );
    assert_eq!(
        handle_close_entrants(&raffle, key(AUTHORITY), END + TIME_BUFFER - 1),
        Err(RaffleError::RaffleStillRunning)
    );
    assert_eq!(
        handle_close_entrants(&raffle, key(AUTHORITY), END + TIME_BUFFER),
        Err(RaffleError::WinnerNotDrawn)
    );
    let mut late = raffle;
    late.end_timestamp = i64::MAX;
    assert_eq!(
        handle_close_entrants(&late, key(AUTHORITY), i64::MAX),
        Err(RaffleError::InvalidCalculation)
    );
}
