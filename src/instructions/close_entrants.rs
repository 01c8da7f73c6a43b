use vstd::prelude::*;

use crate::error::RaffleError;
use crate::instructions::reveal_raffle_winner::draw_opens;
use crate::constants::TIME_BUFFER;
use crate::state::{Pubkey, Raffle};

verus! {

/// Why `authority` may not reclaim the ledger at time `now`, if it may not.
pub open spec fn close_error(raffle: Raffle, authority: Pubkey, now: i64) -> Option<RaffleError> {
    if raffle.authority != authority {
        Some(RaffleError::Unauthorized)
    } else if draw_opens(raffle) > i64::MAX {
        Some(RaffleError::InvalidCalculation)
    } else if now < draw_opens(raffle) {
        Some(RaffleError::RaffleStillRunning)
    } else if raffle.randomness is None {
        Some(RaffleError::WinnerNotDrawn)
    } else if !raffle.claimed_prizes {
        Some(RaffleError::PrizeNotClaimed)
    } else {
        None
    }
}

/// Decides whether `authority` may, at time `now`, tear the raffle down and
/// take back the ledger's storage: only once it has ended, been drawn and
/// been claimed.
pub fn handle_close_entrants(raffle: &Raffle, authority: Pubkey, now: i64) -> (r: Result<
    (),
    RaffleError,
>)
    ensures
        match close_error(*raffle, authority, now) {
            Some(e) => r == Err::<(), RaffleError>(e),
            None => r is Ok,
        },
{
    if !raffle.authority.same_as(&authority) {
        return Err(RaffleError::Unauthorized);
    }
    let end_timestamp_with_buffer = match raffle.end_timestamp.checked_add(TIME_BUFFER) {
        Some(v) => v,
        None => return Err(RaffleError::InvalidCalculation),
    };
    if now < end_timestamp_with_buffer {
        return Err(RaffleError::RaffleStillRunning);
    }
    if raffle.randomness.is_none() {
        return Err(RaffleError::WinnerNotDrawn);
    }
    if !raffle.claimed_prizes {
        return Err(RaffleError::PrizeNotClaimed);
    }
    Ok(())
}

} // verus!
