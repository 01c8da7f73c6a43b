use vstd::prelude::*;

use crate::constants::TIME_BUFFER;
use crate::error::RaffleError;
use crate::state::{Entrants, Raffle};
use crate::utils::{blockhash_seed, derive_winner, recent_blockhashes, winner_index};

verus! {

/// The first instant at which a winner may be drawn and the ledger reclaimed.
pub open spec fn draw_opens(raffle: Raffle) -> int {
    raffle.end_timestamp + TIME_BUFFER
}

/// Why a draw at time `now` from the randomness record `data` is refused, if it is.
pub open spec fn reveal_error(raffle: Raffle, entrants: Entrants, now: i64, data: Seq<u8>) -> Option<
    RaffleError,
> {
    if draw_opens(raffle) > i64::MAX {
        Some(RaffleError::InvalidCalculation)
    } else if now < draw_opens(raffle) {
        Some(RaffleError::RaffleStillRunning)
    } else if entrants.total == 0 {
        Some(RaffleError::InvalidCalculation)
    } else if raffle.randomness is Some {
        Some(RaffleError::WinnersAlreadyDrawn)
    } else if blockhash_seed(data) is None {
        Some(RaffleError::InvalidAccountData)
    } else {
        None
    }
}

/// Draws the winner, once, from the randomness record `recent_blockhashes_data`
/// at time `now`, and returns the winning index.
pub fn handle_reveal_raffle_winners(
    raffle: &mut Raffle,
    entrants: &Entrants,
    recent_blockhashes_data: &[u8],
    now: i64,
) -> (r: Result<u32, RaffleError>)
    requires
        entrants.wf(),
    ensures
        old(raffle).wf() ==> final(raffle).wf(),
        match reveal_error(*old(raffle), *entrants, now, recent_blockhashes_data@) {
            Some(e) => r == Err::<u32, RaffleError>(e) && *final(raffle) == *old(raffle),
            None => {
                &&& r is Ok
                &&& r->Ok_0 as int == winner_index(
                    blockhash_seed(recent_blockhashes_data@)->Some_0,
                    entrants.total,
                )
                &&& r->Ok_0 < entrants.total
                &&& *final(raffle) == (Raffle { randomness: Some(r->Ok_0), ..*old(raffle) })
            },
        },
{
    let end_timestamp_with_buffer = match raffle.end_timestamp.checked_add(TIME_BUFFER) {
        Some(v) => v,
        None => return Err(RaffleError::InvalidCalculation),
    };
    if now < end_timestamp_with_buffer {
        return Err(RaffleError::RaffleStillRunning);
    }
    if entrants.total == 0 {
        return Err(RaffleError::InvalidCalculation);
    }
    if raffle.randomness.is_some() {
        return Err(RaffleError::WinnersAlreadyDrawn);
    }
    let randomness = match recent_blockhashes(recent_blockhashes_data) {
        Ok(seed) => seed,
        Err(e) => return Err(e),
    };
    let winner = derive_winner(randomness, entrants.total);
    raffle.randomness = Some(winner);
    Ok(winner)
}

} // verus!
