use vstd::prelude::*;

use crate::constants::ENTRANTS_SIZE;
use crate::error::RaffleError;
use crate::state::{Entrants, Pubkey, Raffle};

verus! {

/// Why a raffle with these parameters cannot be created at time `now`, if it cannot.
pub open spec fn create_error(
    now: i64,
    end_timestamp: i64,
    ticket_price: u64,
    max_entrants: u32,
    authority_fee_percent: u8,
) -> Option<RaffleError> {
    if now >= end_timestamp {
        Some(RaffleError::InvalidEndTimestamp)
    } else if ticket_price == 0 {
        Some(RaffleError::InvalidTicketPrice)
    } else if max_entrants == 0 || max_entrants > ENTRANTS_SIZE {
        Some(RaffleError::InvalidMaxEntrants)
    } else if authority_fee_percent == 0 || authority_fee_percent > 100 {
        Some(RaffleError::InvalidAuthorityFeePercent)
    } else {
        None
    }
}

/// The open raffle record that creation produces.
pub open spec fn new_raffle(
    authority: Pubkey,
    entrants_key: Pubkey,
    bump: u8,
    end_timestamp: i64,
    ticket_price: u64,
    authority_fee_percent: u8,
) -> Raffle {
    Raffle {
        authority,
        entrants: entrants_key,
        end_timestamp,
        accumulated_fees: 0,
        ticket_lamports_price: ticket_price,
        authority_fee_percent,
        bump,
        claimed_prizes: false,
        randomness: None,
    }
}

/// Creates an open raffle and its empty ledger, or neither.
pub fn handle_create_raffle(
    authority: Pubkey,
    entrants_key: Pubkey,
    bump: u8,
    now: i64,
    end_timestamp: i64,
    ticket_price: u64,
    max_entrants: u32,
    authority_fee_percent: u8,
) -> (r: Result<(Raffle, Entrants), RaffleError>)
    ensures
        match create_error(now, end_timestamp, ticket_price, max_entrants, authority_fee_percent) {
            Some(e) => r == Err::<(Raffle, Entrants), RaffleError>(e),
            None => {
                &&& r is Ok
                &&& r->Ok_0.0 == new_raffle(
                    authority,
                    entrants_key,
                    bump,
                    end_timestamp,
                    ticket_price,
                    authority_fee_percent,
                )
                &&& r->Ok_0.0.wf()
                &&& r->Ok_0.1.wf()
                &&& r->Ok_0.1.total == 0
                &&& r->Ok_0.1.max == max_entrants
                &&& r->Ok_0.1.entrants@ == Seq::<Pubkey>::empty()
            },
        },
{
    if now >= end_timestamp {
        return Err(RaffleError::InvalidEndTimestamp);
    }
    if ticket_price == 0 {
        return Err(RaffleError::InvalidTicketPrice);
    }
    if max_entrants == 0 || max_entrants > ENTRANTS_SIZE {
        return Err(RaffleError::InvalidMaxEntrants);
    }
    if authority_fee_percent == 0 || authority_fee_percent > 100 {
        return Err(RaffleError::InvalidAuthorityFeePercent);
    }
    let raffle = Raffle {
        authority,
        entrants: entrants_key,
        end_timestamp,
        accumulated_fees: 0,
        ticket_lamports_price: ticket_price,
        authority_fee_percent,
        bump,
        claimed_prizes: false,
        randomness: None,
    };
    let entrants = Entrants::with_capacity(max_entrants);
    Ok((raffle, entrants))
}

} // verus!
